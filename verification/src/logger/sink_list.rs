//! The list of sinks of a logger, and what happens to it when a sink is added or removed.

use crate::sink::Sink;
use crate::util::errors::{sink_error_message, LoggerError, LoggerErrorKind, SinkError};
use crate::util::record::Record;
use vstd::prelude::*;

verus! {

/// The position of the first name equal to `name`, or the length when there is none.
pub open spec fn first_named(names: Seq<Seq<char>>, name: Seq<char>) -> int
    decreases names.len(),
{
    if names.len() == 0 {
        0
    } else if names[0] == name {
        0
    } else {
        1 + first_named(names.drop_first(), name)
    }
}

/// The sinks after the one at `i` is removed by moving the last sink into its place.
pub open spec fn swap_removed<S>(sinks: Seq<S>, i: int) -> Seq<S> {
    sinks.update(i, sinks.last()).drop_last()
}

proof fn lemma_first_named(names: Seq<Seq<char>>, name: Seq<char>)
    ensures
        0 <= first_named(names, name) <= names.len(),
        first_named(names, name) < names.len() ==> names[first_named(names, name)] == name,
        forall|j: int| 0 <= j < first_named(names, name) ==> #[trigger] names[j] != name,
    decreases names.len(),
{
    if names.len() > 0 && names[0] != name {
        let rest = names.drop_first();
        lemma_first_named(rest, name);
        assert forall|j: int| 0 <= j < first_named(names, name) implies #[trigger] names[j] != name by {
            if j > 0 {
                assert(names[j] == rest[j - 1]);
            }
        }
    }
}

/// The sinks of a list of named sinks.
pub open spec fn sinks_of<S>(e: Seq<(String, S)>) -> Seq<S> {
    e.map_values(|p: (String, S)| p.1)
}

/// The names of a list of named sinks.
pub open spec fn names_of<S>(e: Seq<(String, S)>) -> Seq<Seq<char>> {
    e.map_values(|p: (String, S)| p.0@)
}

proof fn lemma_swap_removed_parts<S>(e: Seq<(String, S)>, i: int)
    requires
        0 <= i < e.len(),
    ensures
        sinks_of(swap_removed(e, i)) == swap_removed(sinks_of(e), i),
        names_of(swap_removed(e, i)) == swap_removed(names_of(e), i),
{
    assert(sinks_of(swap_removed(e, i)) =~= swap_removed(sinks_of(e), i));
    assert(names_of(swap_removed(e, i)) =~= swap_removed(names_of(e), i));
}

/// Pairs each sink with the name it gives when it joins the list (a sink keeps the name it
/// was made with).
pub fn named<S: Sink>(sinks: Vec<S>) -> (e: Vec<(String, S)>)
    ensures
        sinks_of(e@) == sinks@,
{
    let ghost all = sinks@;
    let mut rest = sinks;
    let mut e: Vec<(String, S)> = Vec::new();
    while rest.len() > 0
        invariant
            sinks_of(e@) + rest@ == all,
        decreases rest.len(),
    {
        let ghost before = e@;
        let ghost r0 = rest@;
        let s = rest.remove(0);
        let n = String::from_str(s.name());
        e.push((n, s));
        proof {
            assert(sinks_of(e@) =~= sinks_of(before).push(s));
            assert(r0 =~= seq![s] + rest@);
            assert(sinks_of(e@) + rest@ =~= sinks_of(before) + r0);
        }
    }
    proof {
        assert(sinks_of(e@) + rest@ =~= sinks_of(e@));
    }
    e
}

/// Adds a sink after the others, with the name it gives.
pub fn add_named<S: Sink>(e: &mut Vec<(String, S)>, sink: S)
    ensures
        sinks_of(final(e)@) == sinks_of(old(e)@).push(sink),
        names_of(final(e)@).len() == names_of(old(e)@).len() + 1,
        names_of(final(e)@).drop_last() == names_of(old(e)@),
{
    let n = String::from_str(sink.name());
    e.push((n, sink));
    proof {
        assert(sinks_of(e@) =~= sinks_of(old(e)@).push(sink));
        assert(names_of(e@).drop_last() =~= names_of(old(e)@));
    }
}

/// The position of the first entry named `name`, or the number of entries when none is.
pub fn find_entry<S>(e: &Vec<(String, S)>, name: &str) -> (i: usize)
    ensures
        i == first_named(names_of(e@), name@),
{
    proof {
        lemma_first_named(names_of(e@), name@);
    }
    let key = String::from_str(name);
    let mut idx: usize = 0;
    while idx < e.len()
        invariant
            key@ == name@,
            idx <= e@.len(),
            0 <= first_named(names_of(e@), name@) <= e@.len(),
            first_named(names_of(e@), name@) < e@.len() ==> names_of(e@)[first_named(names_of(e@), name@)] == name@,
            forall|j: int| 0 <= j < idx ==> #[trigger] names_of(e@)[j] != name@,
        decreases e.len() - idx,
    {
        if e[idx].0.eq(&key) {
            proof {
                assert(names_of(e@)[idx as int] == name@);
                if first_named(names_of(e@), name@) > idx {
                    lemma_first_named(names_of(e@), name@);
                }
            }
            return idx;
        }
        idx = idx + 1;
    }
    idx
}

/// Removes the first sink named `name`, moving the last sink into its place. When no sink has
/// that name the list is unchanged and the error is `SinkNameNotFound`, without a source.
pub fn remove_named<S>(e: &mut Vec<(String, S)>, name: &str) -> (r: Result<(), LoggerError>)
    ensures
        r is Err <==> forall|j: int| 0 <= j < old(e)@.len() ==> #[trigger] names_of(old(e)@)[j] != name@,
        ({
            let i = first_named(names_of(old(e)@), name@);
            match r {
                Ok(()) => 0 <= i < old(e)@.len() && final(e)@ == swap_removed(old(e)@, i)
                    && sinks_of(final(e)@) == swap_removed(sinks_of(old(e)@), i) && names_of(final(e)@)
                    == swap_removed(names_of(old(e)@), i),
                Err(err) => err.spec_kind() == LoggerErrorKind::SinkNameNotFound && err.spec_source()
                    == None::<Seq<char>> && final(e)@ == old(e)@,
            }
        }),
{
    let i = find_entry(e, name);
    proof {
        lemma_first_named(names_of(e@), name@);
    }
    if i < e.len() {
        proof {
            lemma_swap_removed_parts(e@, i as int);
        }
        let _ = e.swap_remove(i);
        assert(e@ == swap_removed(old(e)@, i as int));
        Ok(())
    } else {
        Err(LoggerError::new(LoggerErrorKind::SinkNameNotFound))
    }
}

/// Whether `r` reports the outcome `o` of one sink: `Ok` for `Ok`, and for a sink's error an
/// error of `kind`, without a source, or with the message of the sink's error as its source.
pub open spec fn reports(o: Result<(), SinkError>, r: Result<(), LoggerError>, kind: LoggerErrorKind, with_source: bool) -> bool {
    match (o, r) {
        (Ok(()), Ok(())) => true,
        (Err(s), Err(e)) => e.spec_kind() == kind && e.spec_source() == (if with_source {
            Some(sink_error_message(s.spec_kind()))
        } else {
            None::<Seq<char>>
        }),
        _ => false,
    }
}

/// Whether each outcome is `Ok` or an error of `kind`, without a source or with one as `with_source` says.
pub open spec fn outcomes_of_kind(r: Seq<Result<(), LoggerError>>, kind: LoggerErrorKind, with_source: bool) -> bool {
    forall|k: int|
        0 <= k < r.len() ==> match #[trigger] r[k] {
            Ok(()) => true,
            Err(e) => e.spec_kind() == kind && (if with_source {
                e.spec_source() is Some
            } else {
                e.spec_source() == None::<Seq<char>>
            }),
        }
}

/// Whether every error may be handed to the handler, if there is one.
pub open spec fn handler_callable<H: Fn(LoggerError) -> bool>(handler: Option<H>) -> bool {
    handler matches Some(h) ==> forall|e: LoggerError| call_requires(h, (e,))
}

/// Whether the handler, when handed an error of `kind`, answered `false`.
pub open spec fn refused<H: Fn(LoggerError) -> bool>(handler: Option<H>, kind: LoggerErrorKind) -> bool {
    handler matches Some(h) && exists|e: LoggerError| e.spec_kind() == kind && call_ensures(h, (e,), false)
}

/// Whether a run over the sinks went through every sink, or stopped at a sink whose error the
/// handler refused: then the outcomes end with that error, and the later sinks were not called.
pub open spec fn run_result<H: Fn(LoggerError) -> bool>(
    r: (Vec<Result<(), LoggerError>>, bool),
    n: nat,
    handler: Option<H>,
    kind: LoggerErrorKind,
    with_source: bool,
) -> bool {
    &&& outcomes_of_kind(r.0@, kind, with_source)
    &&& !r.1 ==> r.0@.len() == n
    &&& r.1 ==> 0 < r.0@.len() <= n && r.0@.last() is Err && refused(handler, kind)
}

/// Whether `r` reports a result that `sink.log(record)` returned.
pub open spec fn log_reported<S: Sink>(
    sink: S,
    record: Record,
    r: Result<(), LoggerError>,
    kind: LoggerErrorKind,
    with_source: bool,
) -> bool {
    exists|o: Result<(), SinkError>|
        call_ensures(S::log, (&sink, &record), o) && #[trigger] reports(o, r, kind, with_source)
}

/// Whether `r` reports a result that `sink.flush()` returned.
pub open spec fn flush_reported<S: Sink>(
    sink: S,
    r: Result<(), LoggerError>,
    kind: LoggerErrorKind,
    with_source: bool,
) -> bool {
    exists|o: Result<(), SinkError>|
        call_ensures(S::flush, (&sink,), o) && #[trigger] reports(o, r, kind, with_source)
}

/// An outcome that reports a sink's flush is `Ok` exactly when that flush returned `Ok`, and an
/// error of `kind` exactly when the flush failed; with sources kept, the error's source is the
/// message of the sink's error.
pub proof fn lemma_flush_outcome<S: Sink>(
    sink: S,
    r: Result<(), LoggerError>,
    kind: LoggerErrorKind,
    with_source: bool,
)
    requires
        flush_reported(sink, r, kind, with_source),
    ensures
        exists|o: Result<(), SinkError>|
            call_ensures(S::flush, (&sink,), o) && (o is Ok <==> r is Ok) && (o matches Err(se) ==> (r matches Err(e)
                && e.spec_kind() == kind && (with_source ==> e.spec_source() == Some(
                sink_error_message(se.spec_kind()),
            )))),
{
    let o = choose|o: Result<(), SinkError>|
        call_ensures(S::flush, (&sink,), o) && #[trigger] reports(o, r, kind, with_source);
    assert(call_ensures(S::flush, (&sink,), o));
}

/// An outcome that reports a sink's handling of a record is `Ok` exactly when that call returned
/// `Ok`, and an error of `kind` exactly when it failed.
pub proof fn lemma_log_outcome<S: Sink>(
    sink: S,
    record: Record,
    r: Result<(), LoggerError>,
    kind: LoggerErrorKind,
    with_source: bool,
)
    requires
        log_reported(sink, record, r, kind, with_source),
    ensures
        exists|o: Result<(), SinkError>|
            call_ensures(S::log, (&sink, &record), o) && (o is Ok <==> r is Ok) && (r matches Err(e) ==> e.spec_kind() == kind),
{
    let o = choose|o: Result<(), SinkError>|
        call_ensures(S::log, (&sink, &record), o) && #[trigger] reports(o, r, kind, with_source);
    assert(call_ensures(S::log, (&sink, &record), o));
}

/// Whether each outcome reports what the sink at its position gave when handed the record:
/// the `k`-th outcome reports a result that `sinks[k].log(record)` returned.
pub open spec fn logged_by<S: Sink>(
    sinks: Seq<S>,
    record: Record,
    r: Seq<Result<(), LoggerError>>,
    kind: LoggerErrorKind,
    with_source: bool,
) -> bool {
    forall|k: int| 0 <= k < r.len() ==> log_reported(sinks[k], record, #[trigger] r[k], kind, with_source)
}

/// Whether each outcome reports what the sink at its position gave when flushed: the `k`-th
/// outcome reports a result that `sinks[k].flush()` returned.
pub open spec fn flushed_by<S: Sink>(
    sinks: Seq<S>,
    r: Seq<Result<(), LoggerError>>,
    kind: LoggerErrorKind,
    with_source: bool,
) -> bool {
    forall|k: int| 0 <= k < r.len() ==> flush_reported(sinks[k], #[trigger] r[k], kind, with_source)
}

/// A sink's error as an error of `kind` (see [`reports`]).
pub fn to_logger_error(error: &SinkError, kind: LoggerErrorKind, with_source: bool) -> (e: LoggerError)
    ensures
        reports(Err(*error), Err(e), kind, with_source),
{
    if with_source {
        let message = String::from_str(error.kind().message());
        LoggerError::with_source(kind, message)
    } else {
        LoggerError::new(kind)
    }
}

/// Reports one sink's outcome: pushes it, as a logger outcome, and hands its error to the
/// handler; gives whether the handler refused it.
fn report_one<H: Fn(LoggerError) -> bool>(
    outcomes: &mut Vec<Result<(), LoggerError>>,
    o: Result<(), SinkError>,
    kind: LoggerErrorKind,
    with_source: bool,
    handler: &Option<H>,
) -> (refused_now: bool)
    requires
        handler_callable(*handler),
        outcomes_of_kind(old(outcomes)@, kind, with_source),
    ensures
        final(outcomes)@.len() == old(outcomes)@.len() + 1,
        final(outcomes)@.drop_last() == old(outcomes)@,
        reports(o, final(outcomes)@.last(), kind, with_source),
        outcomes_of_kind(final(outcomes)@, kind, with_source),
        refused_now ==> final(outcomes)@.last() is Err && refused(*handler, kind),
{
    let ghost before = outcomes@;
    let mut refused_now = false;
    match &o {
        Ok(()) => outcomes.push(Ok(())),
        Err(se) => {
            match handler {
                Some(h) => {
                    let e = to_logger_error(se, kind, with_source);
                    let ghost g = e;
                    let accepted = h(e);
                    if !accepted {
                        refused_now = true;
                        assert(g.spec_kind() == kind && call_ensures(*h, (g,), false));
                    }
                },
                None => {},
            }
            outcomes.push(Err(to_logger_error(se, kind, with_source)));
        },
    }
    proof {
        assert(outcomes@.drop_last() =~= before);
        assert forall|k: int| 0 <= k < outcomes@.len() implies match #[trigger] outcomes@[k] {
            Ok(()) => true,
            Err(e) => e.spec_kind() == kind && (if with_source {
                e.spec_source() is Some
            } else {
                e.spec_source() == None::<Seq<char>>
            }),
        } by {
            if k < before.len() {
                assert(outcomes@[k] == before[k]);
            }
        }
    }
    refused_now
}

/// Hands a record to each sink in order, reporting each outcome as an outcome of `kind` and
/// handing each error to the handler at once. Stops after a sink whose error the handler
/// refuses (the second part of the result is then `true`).
pub fn log_all<S: Sink, H: Fn(LoggerError) -> bool>(
    sinks: &Vec<(String, S)>,
    record: &Record,
    kind: LoggerErrorKind,
    with_source: bool,
    handler: &Option<H>,
) -> (r: (Vec<Result<(), LoggerError>>, bool))
    requires
        handler_callable(*handler),
    ensures
        run_result(r, sinks@.len(), *handler, kind, with_source),
        logged_by(sinks_of(sinks@), *record, r.0@, kind, with_source),
{
    let mut outcomes: Vec<Result<(), LoggerError>> = Vec::new();
    let mut i: usize = 0;
    while i < sinks.len()
        invariant
            i <= sinks@.len(),
            outcomes@.len() == i,
            handler_callable(*handler),
            outcomes_of_kind(outcomes@, kind, with_source),
            logged_by(sinks_of(sinks@), *record, outcomes@, kind, with_source),
        decreases sinks.len() - i,
    {
        let o = sinks[i].1.log(record);
        let ghost before = outcomes@;
        let stop = report_one(&mut outcomes, o, kind, with_source, handler);
        proof {
            assert(sinks_of(sinks@)[i as int] == sinks@[i as int].1);
            assert(log_reported(sinks_of(sinks@)[i as int], *record, outcomes@[i as int], kind, with_source));
            assert forall|k: int| 0 <= k < outcomes@.len() implies log_reported(
                sinks_of(sinks@)[k],
                *record,
                #[trigger] outcomes@[k],
                kind,
                with_source,
            ) by {
                if k < before.len() {
                    assert(outcomes@[k] == before[k]);
                }
            }
            assert(logged_by(sinks_of(sinks@), *record, outcomes@, kind, with_source));
        }
        if stop {
            return (outcomes, true);
        }
        i = i + 1;
    }
    (outcomes, false)
}

/// Flushes each sink in order, reporting each outcome as an outcome of `kind` and handing each
/// error to the handler at once. Stops after a sink whose error the handler refuses (the
/// second part of the result is then `true`).
pub fn flush_all<S: Sink, H: Fn(LoggerError) -> bool>(
    sinks: &Vec<(String, S)>,
    kind: LoggerErrorKind,
    with_source: bool,
    handler: &Option<H>,
) -> (r: (Vec<Result<(), LoggerError>>, bool))
    requires
        handler_callable(*handler),
    ensures
        run_result(r, sinks@.len(), *handler, kind, with_source),
        flushed_by(sinks_of(sinks@), r.0@, kind, with_source),
{
    let mut outcomes: Vec<Result<(), LoggerError>> = Vec::new();
    let mut i: usize = 0;
    while i < sinks.len()
        invariant
            i <= sinks@.len(),
            outcomes@.len() == i,
            handler_callable(*handler),
            outcomes_of_kind(outcomes@, kind, with_source),
            flushed_by(sinks_of(sinks@), outcomes@, kind, with_source),
        decreases sinks.len() - i,
    {
        let o = sinks[i].1.flush();
        let ghost before = outcomes@;
        let stop = report_one(&mut outcomes, o, kind, with_source, handler);
        proof {
            assert(sinks_of(sinks@)[i as int] == sinks@[i as int].1);
            assert(flush_reported(sinks_of(sinks@)[i as int], outcomes@[i as int], kind, with_source));
            assert forall|k: int| 0 <= k < outcomes@.len() implies flush_reported(
                sinks_of(sinks@)[k],
                #[trigger] outcomes@[k],
                kind,
                with_source,
            ) by {
                if k < before.len() {
                    assert(outcomes@[k] == before[k]);
                }
            }
        }
        if stop {
            return (outcomes, true);
        }
        i = i + 1;
    }
    (outcomes, false)
}

} // verus!
