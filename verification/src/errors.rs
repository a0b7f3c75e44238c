//! Error kinds of the library.
//!
//! Every operation returns its failure to the immediate caller as one of
//! these variants; nothing is retried or swallowed inside the library.
//! Variants that wrapped a foreign error value carry its rendered text in
//! `message` instead, so the type stays plain data.

use vstd::prelude::*;

verus! {

/// The error type shared by configuration loading, connection building,
/// fetching and filtering.
#[derive(Debug, Clone)]
pub enum KubernetesError {
    RequestError,
    IoError { message: String },
    ClientBuildError,
    HttpClientBuildError { message: String },
    HttpClientRequestError,
    HttpClientParseResponseError { message: String },
    ApiRequestError { message: String },
    Base64DecodeError { message: String },
    InvalidDataError,
    ConfigLoadError,
    WrongDatetimeFormat { message: String },
}

impl KubernetesError {
    /// The human-readable description of this error.
    pub open spec fn spec_describe(&self) -> Seq<char> {
        match self {
            KubernetesError::RequestError => "Request Error (k8s_openapi)"@,
            KubernetesError::IoError { message } => "Couldn't read file (io::Error). Source: "@
                + message@,
            KubernetesError::ClientBuildError => "Couldn't build client (isahc)"@,
            KubernetesError::HttpClientBuildError { message } => "Couldn't build http client (isahc): "@
                + message@,
            KubernetesError::HttpClientRequestError => "Couldn't build http client (isahc)"@,
            KubernetesError::HttpClientParseResponseError { message } => "Couldn't parse response from HTTP server: "@
                + message@,
            KubernetesError::ApiRequestError { message } => "API returned error: "@ + message@
                + "."@,
            KubernetesError::Base64DecodeError { message } => "Couldn't decode base 64. Source: "@
                + message@,
            KubernetesError::InvalidDataError => "Invalid data provided."@,
            KubernetesError::ConfigLoadError => "Could not load Kube Config."@,
            KubernetesError::WrongDatetimeFormat { message } => "Couldn't parse date time input : "@
                + message@,
        }
    }

    /// Renders the error as text, one fixed phrase per variant, with the
    /// carried cause appended where the variant has one.
    pub fn describe(&self) -> (r: String)
        ensures
            r@ == self.spec_describe(),
    {
        match self {
            KubernetesError::RequestError => String::from_str("Request Error (k8s_openapi)"),
            KubernetesError::IoError { message } => String::from_str(
                "Couldn't read file (io::Error). Source: ",
            ).concat(message.as_str()),
            KubernetesError::ClientBuildError => String::from_str("Couldn't build client (isahc)"),
            KubernetesError::HttpClientBuildError { message } => String::from_str(
                "Couldn't build http client (isahc): ",
            ).concat(message.as_str()),
            KubernetesError::HttpClientRequestError => String::from_str(
                "Couldn't build http client (isahc)",
            ),
            KubernetesError::HttpClientParseResponseError { message } => String::from_str(
                "Couldn't parse response from HTTP server: ",
            ).concat(message.as_str()),
            KubernetesError::ApiRequestError { message } => String::from_str(
                "API returned error: ",
            ).concat(message.as_str()).concat("."),
            KubernetesError::Base64DecodeError { message } => String::from_str(
                "Couldn't decode base 64. Source: ",
            ).concat(message.as_str()),
            KubernetesError::InvalidDataError => String::from_str("Invalid data provided."),
            KubernetesError::ConfigLoadError => String::from_str("Could not load Kube Config."),
            KubernetesError::WrongDatetimeFormat { message } => String::from_str(
                "Couldn't parse date time input : ",
            ).concat(message.as_str()),
        }
    }
}

} // verus!
