//! Plain models of the fetched resources, and the event time filter.
//!
//! The control plane's own resource schema is an external collaborator; the
//! library keeps of each resource the plain fields its logic and callers
//! read.  An event's time is carried as whole microseconds since the Unix
//! epoch, which is the precision the wire format itself uses.

use vstd::prelude::*;

use crate::errors::KubernetesError;

verus! {

/// An event record: identifying fields plus the optional instant it
/// happened, in microseconds since the Unix epoch.
#[derive(Debug, PartialEq)]
pub struct Event {
    pub name: Option<String>,
    pub namespace: Option<String>,
    pub reason: Option<String>,
    pub message: Option<String>,
    pub event_time_micros: Option<i64>,
}

/// A pod record: identifying fields plus its lifecycle phase.
#[derive(Debug, PartialEq)]
pub struct Pod {
    pub name: Option<String>,
    pub namespace: Option<String>,
    pub phase: Option<String>,
}

impl Clone for Event {
    /// A clone carries exactly the same fields.
    fn clone(&self) -> (r: Self)
        ensures
            r == *self,
    {
        let r = Event {
            name: self.name.clone(),
            namespace: self.namespace.clone(),
            reason: self.reason.clone(),
            message: self.message.clone(),
            event_time_micros: self.event_time_micros,
        };
        proof {
            assert(r.name == self.name);
            assert(r.namespace == self.namespace);
            assert(r.reason == self.reason);
            assert(r.message == self.message);
        }
        r
    }
}

impl Clone for Pod {
    /// A clone carries exactly the same fields.
    fn clone(&self) -> (r: Self)
        ensures
            r == *self,
    {
        let r = Pod {
            name: self.name.clone(),
            namespace: self.namespace.clone(),
            phase: self.phase.clone(),
        };
        proof {
            assert(r.name == self.name);
            assert(r.namespace == self.namespace);
            assert(r.phase == self.phase);
        }
        r
    }
}

/// The instant, in microseconds since the Unix epoch, that an RFC 3339
/// timestamp denotes, or `None` where the text is not a valid timestamp.
/// Uninterpreted: the trusted wrapper below states what the contracts need.
pub uninterp spec fn rfc3339_micros_of(s: Seq<char>) -> Option<i64>;

/// Relies on chrono's DateTime::parse_from_rfc3339, and on timestamp_micros
/// to express the parsed instant as a plain value: the outcome is a function
/// of the input characters alone, and parsing fails exactly on malformed
/// input.
#[verifier::external_body]
fn parse_rfc3339_micros(s: &str) -> (r: Result<i64, String>)
    ensures
        r matches Ok(m) ==> rfc3339_micros_of(s@) == Some(m),
        r matches Err(_) ==> rfc3339_micros_of(s@) is None,
{
    match chrono::DateTime::parse_from_rfc3339(s) {
        Ok(dt) => Ok(dt.timestamp_micros()),
        Err(err) => Err(format!("{}", err)),
    }
}

/// Whether an event survives the cutoff: it must carry a timestamp, and the
/// timestamp must be at or after the cutoff.
pub open spec fn spec_keep_event(e: Event, cutoff: i64) -> bool {
    e.event_time_micros matches Some(t) && t >= cutoff
}

/// The predicate form of `spec_keep_event`, for use with `Seq::filter`.
pub open spec fn keep_pred(cutoff: i64) -> spec_fn(Event) -> bool {
    |e: Event| spec_keep_event(e, cutoff)
}

/// What `filter_since` must return: with no cutoff the input unchanged,
/// with an unparseable cutoff a `WrongDatetimeFormat` error, and otherwise
/// exactly the events at or after the cutoff, in their original order.
pub open spec fn filter_since_post(
    events: Seq<Event>,
    since: Option<String>,
    r: Result<Vec<Event>, KubernetesError>,
) -> bool {
    match since {
        None => r matches Ok(v) && v@ == events,
        Some(s) => match rfc3339_micros_of(s@) {
            Some(cutoff) => r matches Ok(v) && v@ == events.filter(keep_pred(cutoff)),
            None => r matches Err(e) && e matches KubernetesError::WrongDatetimeFormat { .. },
        },
    }
}

/// Retains the events whose timestamp is at or after `cutoff`, keeping their
/// order.
fn filter_events(events: Vec<Event>, cutoff: i64) -> (r: Vec<Event>)
    ensures
        r@ == events@.filter(keep_pred(cutoff)),
{
    let ghost pred = keep_pred(cutoff);
    let mut out: Vec<Event> = Vec::new();
    let mut i: usize = 0;
    while i < events.len()
        invariant
            i <= events@.len(),
            pred == keep_pred(cutoff),
            out@ == events@.take(i as int).filter(pred),
        decreases events@.len() - i,
    {
        let keep = match &events[i].event_time_micros {
            Some(t) => *t >= cutoff,
            None => false,
        };
        proof {
            reveal_with_fuel(Seq::<Event>::filter, 2);
            let x = events@[i as int];
            assert(events@.take(i + 1 as int) =~= events@.take(i as int) + seq![x]);
            Seq::<Event>::filter_distributes_over_add(events@.take(i as int), seq![x], pred);
            assert(seq![x].drop_last() =~= Seq::<Event>::empty());
            assert(Seq::<Event>::empty().filter(pred) =~= Seq::<Event>::empty());
            assert(Seq::<Event>::empty().push(x) =~= seq![x]);
            assert(seq![x].filter(pred) =~= (if pred(x) {
                seq![x]
            } else {
                Seq::<Event>::empty()
            }));
        }
        if keep {
            out.push(events[i].clone());
            proof {
                assert(events@[i as int].event_time_micros matches Some(t) && t >= cutoff);
                assert(out@ =~= events@.take(i + 1 as int).filter(pred));
            }
        } else {
            proof {
                assert(out@ =~= events@.take(i + 1 as int).filter(pred));
            }
        }
        i = i + 1;
    }
    proof {
        assert(events@.take(events@.len() as int) =~= events@);
    }
    out
}

/// The time-based post-filter.  With no cutoff the input is returned
/// unchanged, events without a timestamp included.  With a cutoff, the text
/// is parsed as an RFC 3339 timestamp — a malformed value is an error, and
/// never silently passes events through — and exactly the events whose own
/// timestamp is present and at or after the cutoff are returned, in their
/// original order.
pub fn filter_since(events: Vec<Event>, since: Option<String>) -> (r: Result<
    Vec<Event>,
    KubernetesError,
>)
    ensures
        filter_since_post(events@, since, r),
{
    match since {
        None => Ok(events),
        Some(s) => match parse_rfc3339_micros(s.as_str()) {
            Ok(cutoff) => Ok(filter_events(events, cutoff)),
            Err(message) => Err(KubernetesError::WrongDatetimeFormat { message }),
        },
    }
}

} // verus!
