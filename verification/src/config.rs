//! The declarative configuration: copysets, their per-file target specs, and
//! the validation of configured event names.
//!
//! A copyset names a base source directory, a base target directory, a
//! default list of event kinds, and the files to mirror. Event kinds arrive
//! from the configuration as upper-snake-case strings; an unrecognized string
//! is a configuration error and nothing is set up.

use vstd::prelude::*;

verus! {

use crate::events::NotifyEvent;
use crate::pathstr::str_eq;

/// A malformed configuration: an event name that matches no recognized kind.
#[derive(Debug)]
pub struct ConfigError {
    /// The offending event name, exactly as configured.
    pub bad_event: String,
}

/// The kind a configured event name stands for, or `None` when the name is
/// not recognized.
pub open spec fn spec_parse_event(s: Seq<char>) -> Option<NotifyEvent> {
    if s == "ACCESS"@ {
        Some(NotifyEvent::Access)
    } else if s == "ATTRIB"@ {
        Some(NotifyEvent::Attrib)
    } else if s == "CLOSE_WRITE"@ {
        Some(NotifyEvent::CloseWrite)
    } else if s == "CLOSE_NOWRITE"@ {
        Some(NotifyEvent::CloseNoWrite)
    } else if s == "CREATE"@ {
        Some(NotifyEvent::Create)
    } else if s == "DELETE"@ {
        Some(NotifyEvent::Delete)
    } else if s == "DELETE_SELF"@ {
        Some(NotifyEvent::DeleteSelf)
    } else if s == "MODIFY"@ {
        Some(NotifyEvent::Modify)
    } else if s == "MOVE_SELF"@ {
        Some(NotifyEvent::MoveSelf)
    } else if s == "MOVED_FROM"@ {
        Some(NotifyEvent::MovedFrom)
    } else if s == "MOVED_TO"@ {
        Some(NotifyEvent::MovedTo)
    } else if s == "OPEN"@ {
        Some(NotifyEvent::Open)
    } else if s == "ALL"@ {
        Some(NotifyEvent::All)
    } else if s == "MOVE"@ {
        Some(NotifyEvent::Move)
    } else if s == "CLOSE"@ {
        Some(NotifyEvent::Close)
    } else if s == "DONT_FOLLOW"@ {
        Some(NotifyEvent::DontFollow)
    } else if s == "EXCL_UNLINK"@ {
        Some(NotifyEvent::ExclUnlink)
    } else if s == "ONESHOT"@ {
        Some(NotifyEvent::Oneshot)
    } else {
        None
    }
}

/// Parses one configured event name.
pub fn parse_event(s: &str) -> (r: Option<NotifyEvent>)
    ensures
        r == spec_parse_event(s@),
{
    if str_eq(s, "ACCESS") {
        Some(NotifyEvent::Access)
    } else if str_eq(s, "ATTRIB") {
        Some(NotifyEvent::Attrib)
    } else if str_eq(s, "CLOSE_WRITE") {
        Some(NotifyEvent::CloseWrite)
    } else if str_eq(s, "CLOSE_NOWRITE") {
        Some(NotifyEvent::CloseNoWrite)
    } else if str_eq(s, "CREATE") {
        Some(NotifyEvent::Create)
    } else if str_eq(s, "DELETE") {
        Some(NotifyEvent::Delete)
    } else if str_eq(s, "DELETE_SELF") {
        Some(NotifyEvent::DeleteSelf)
    } else if str_eq(s, "MODIFY") {
        Some(NotifyEvent::Modify)
    } else if str_eq(s, "MOVE_SELF") {
        Some(NotifyEvent::MoveSelf)
    } else if str_eq(s, "MOVED_FROM") {
        Some(NotifyEvent::MovedFrom)
    } else if str_eq(s, "MOVED_TO") {
        Some(NotifyEvent::MovedTo)
    } else if str_eq(s, "OPEN") {
        Some(NotifyEvent::Open)
    } else if str_eq(s, "ALL") {
        Some(NotifyEvent::All)
    } else if str_eq(s, "MOVE") {
        Some(NotifyEvent::Move)
    } else if str_eq(s, "CLOSE") {
        Some(NotifyEvent::Close)
    } else if str_eq(s, "DONT_FOLLOW") {
        Some(NotifyEvent::DontFollow)
    } else if str_eq(s, "EXCL_UNLINK") {
        Some(NotifyEvent::ExclUnlink)
    } else if str_eq(s, "ONESHOT") {
        Some(NotifyEvent::Oneshot)
    } else {
        None
    }
}

/// The kinds a list of configured event names stands for, or `None` when any
/// name in it is not recognized.
pub open spec fn spec_parse_events(names: Seq<Seq<char>>) -> Option<Seq<NotifyEvent>>
    decreases names.len(),
{
    if names.len() == 0 {
        Some(Seq::empty())
    } else {
        match (spec_parse_events(names.drop_last()), spec_parse_event(names.last())) {
            (Some(front), Some(e)) => Some(front.push(e)),
            _ => None,
        }
    }
}

/// `bad` is the first name in `names` that no recognized kind matches.
pub open spec fn is_first_unrecognized(names: Seq<Seq<char>>, bad: Seq<char>) -> bool {
    exists|i: int|
        {
            &&& 0 <= i < names.len()
            &&& spec_parse_event(#[trigger] names[i]) is None
            &&& names[i] == bad
            &&& forall|j: int| 0 <= j < i ==> spec_parse_event(#[trigger] names[j]) is Some
        }
}

/// A list with an unrecognized name at `i` parses to `None` as a whole.
proof fn lemma_parse_events_none(names: Seq<Seq<char>>, i: int)
    requires
        0 <= i < names.len(),
        spec_parse_event(names[i]) is None,
    ensures
        spec_parse_events(names) is None,
    decreases names.len(),
{
    if i < names.len() - 1 {
        lemma_parse_events_none(names.drop_last(), i);
    }
}

/// Parses a list of configured event names, failing on the first name that
/// matches no recognized kind.
pub fn parse_events(names: &Vec<String>) -> (r: Result<Vec<NotifyEvent>, ConfigError>)
    ensures
        r is Ok <==> spec_parse_events(names.deep_view()) is Some,
        (r matches Ok(events) ==> spec_parse_events(names.deep_view()) == Some(events@)),
        (r matches Err(e) ==> is_first_unrecognized(names.deep_view(), e.bad_event@)),
{
    let ghost dv = names.deep_view();
    let mut events: Vec<NotifyEvent> = Vec::new();
    let mut i: usize = 0;
    while i < names.len()
        invariant
            dv == names.deep_view(),
            dv.len() == names.len(),
            i <= names.len(),
            forall|j: int| 0 <= j < names.len() ==> #[trigger] dv[j] == names@[j]@,
            spec_parse_events(dv.take(i as int)) == Some(events@),
            forall|j: int| 0 <= j < i ==> spec_parse_event(#[trigger] dv[j]) is Some,
        decreases names.len() - i,
    {
        match parse_event(names[i].as_str()) {
            Some(e) => {
                proof {
                    assert(dv.take(i + 1).drop_last() =~= dv.take(i as int));
                    assert(dv.take(i + 1).last() == dv[i as int]);
                }
                events.push(e);
            },
            None => {
                proof {
                    lemma_parse_events_none(dv, i as int);
                }
                return Err(ConfigError { bad_event: names[i].clone() });
            },
        }
        i = i + 1;
    }
    proof {
        assert(dv.take(names.len() as int) =~= dv);
    }
    Ok(events)
}

/// One file to mirror: a source path relative to the copyset's source base,
/// an optional target path relative to the copyset's target base (the source
/// path stands in when absent), and an optional override of the copyset's
/// event kinds.
#[derive(Debug)]
pub struct TargetSpec {
    pub source: String,
    pub target: Option<String>,
    pub events: Option<Vec<NotifyEvent>>,
}

impl TargetSpec {
    /// Builds a target spec from configured values, validating the override
    /// event names if any are given.
    pub fn from_named_events(source: String, target: Option<String>, events: Option<Vec<String>>) -> (r:
        Result<TargetSpec, ConfigError>)
        ensures
            r is Ok <==> (match events {
                Some(ns) => spec_parse_events(ns.deep_view()) is Some,
                None => true,
            }),
            (r matches Ok(ts) ==> {
                &&& ts.source == source
                &&& ts.target == target
                &&& (match events {
                    Some(ns) => ts.events matches Some(es) && spec_parse_events(ns.deep_view())
                        == Some(es@),
                    None => ts.events is None,
                })
            }),
            (r matches Err(e) ==> events matches Some(ns) && is_first_unrecognized(
                ns.deep_view(),
                e.bad_event@,
            )),
    {
        match events {
            None => Ok(TargetSpec { source, target, events: None }),
            Some(ns) => match parse_events(&ns) {
                Ok(es) => Ok(TargetSpec { source, target, events: Some(es) }),
                Err(e) => Err(e),
            },
        }
    }
}

/// A named group of files to mirror, sharing a source base directory, a
/// target base directory and a default list of event kinds.
#[derive(Debug)]
pub struct Copyset {
    pub name: String,
    pub events: Vec<NotifyEvent>,
    pub source: String,
    pub target: String,
    pub targets: Vec<TargetSpec>,
}

/// The event kinds a copyset watches for when its configuration names none:
/// create, delete and modify.
pub open spec fn default_events_seq() -> Seq<NotifyEvent> {
    seq![NotifyEvent::Create, NotifyEvent::Delete, NotifyEvent::Modify]
}

/// The whole configuration: the copysets, in the order they were declared.
#[derive(Debug)]
pub struct Config {
    pub copysets: Vec<Copyset>,
}

impl Config {
    /// The default event kinds of a copyset whose configuration names none.
    pub fn default_events() -> (r: Vec<NotifyEvent>)
        ensures
            r@ == default_events_seq(),
    {
        let mut r: Vec<NotifyEvent> = Vec::new();
        r.push(NotifyEvent::Create);
        r.push(NotifyEvent::Delete);
        r.push(NotifyEvent::Modify);
        proof {
            assert(r@ =~= default_events_seq());
        }
        r
    }
}

impl Copyset {
    /// Builds a copyset from configured values, validating its default event
    /// names if any are given and falling back to the default kinds when
    /// none are.
    pub fn from_named_events(
        name: String,
        source: String,
        target: String,
        events: Option<Vec<String>>,
        targets: Vec<TargetSpec>,
    ) -> (r: Result<Copyset, ConfigError>)
        ensures
            r is Ok <==> (match events {
                Some(ns) => spec_parse_events(ns.deep_view()) is Some,
                None => true,
            }),
            (r matches Ok(cs) ==> {
                &&& cs.name == name
                &&& cs.source == source
                &&& cs.target == target
                &&& cs.targets == targets
                &&& (match events {
                    Some(ns) => spec_parse_events(ns.deep_view()) == Some(cs.events@),
                    None => cs.events@ == default_events_seq(),
                })
            }),
            (r matches Err(e) ==> events matches Some(ns) && is_first_unrecognized(
                ns.deep_view(),
                e.bad_event@,
            )),
    {
        match events {
            None => Ok(
                Copyset { name, events: Config::default_events(), source, target, targets },
            ),
            Some(ns) => match parse_events(&ns) {
                Ok(es) => Ok(Copyset { name, events: es, source, target, targets }),
                Err(e) => Err(e),
            },
        }
    }
}

} // verus!
