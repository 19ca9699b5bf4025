//! Reading the audio server's answers: which capture source monitors the
//! default sink.
use vstd::prelude::*;
use crate::text::{chars_of, line_len, lines, next_line, split_words, trim, trimmed, words};

verus! {

/// The name of the monitor source of a sink, from the output of the query
/// for the default sink.
pub open spec fn monitor_name(default_sink_output: Seq<char>) -> Seq<char> {
    trim(default_sink_output) + ".monitor"@
}

/// In a short listing of sources (one source per line: index, name, ...),
/// the index of the first source whose name is `monitor`.
pub open spec fn source_index(listing: Seq<Seq<char>>, monitor: Seq<char>) -> Option<Seq<char>>
    decreases listing.len(),
{
    if listing.len() == 0 {
        None
    } else {
        let parts = words(listing[0]);
        if parts.len() >= 2 && parts[1] == monitor {
            Some(parts[0])
        } else {
            source_index(listing.drop_first(), monitor)
        }
    }
}

/// The monitor source name of the default sink reported in `default_sink_output`.
pub fn sink_monitor_name(default_sink_output: &str) -> (res: String)
    ensures
        res@ == monitor_name(default_sink_output@),
{
    let mut name = trimmed(default_sink_output);
    name.append(".monitor");
    name
}

/// The index of the source named `monitor` in the listing `sources_output`,
/// if a line names it.
pub fn find_monitor_source(sources_output: &str, monitor: &str) -> (res: Option<String>)
    ensures
        match res {
            Some(s) => source_index(lines(sources_output@), monitor@) == Some(s@),
            None => source_index(lines(sources_output@), monitor@) is None,
        },
{
    let v = chars_of(sources_output);
    let wanted = String::from_str(monitor);
    let n = v.len();
    let mut i: usize = 0;
    assert(v@.skip(0) =~= v@);
    while i < n
        invariant
            i <= n == v@.len(),
            v@ == sources_output@,
            wanted@ == monitor@,
            source_index(lines(v@), monitor@) == source_index(lines(v@.skip(i as int)), monitor@),
        decreases n - i,
    {
        let ghost rest = v@.skip(i as int);
        let (next, end) = next_line(&v, i);
        let parts = split_words(&v, i, end);
        let ghost line = v@.subrange(i as int, end as int);
        proof {
            let k = line_len(rest);
            crate::text::lemma_line_len_bound(rest);
            assert(rest.len() > 0);
            if k == rest.len() {
                assert(line =~= rest);
                assert(v@.skip(next as int) =~= Seq::<char>::empty());
                assert(lines(v@.skip(next as int)) =~= Seq::<Seq<char>>::empty());
                assert(seq![line] + lines(v@.skip(next as int)) =~= seq![rest]);
            } else {
                assert(next == i + k + 1);
                assert(rest.skip(k + 1 as int) =~= v@.skip(next as int));
            }
            assert(lines(rest) == seq![line] + lines(v@.skip(next as int)));
            assert((seq![line] + lines(v@.skip(next as int))).drop_first() =~= lines(
                v@.skip(next as int),
            ));
        }
        if parts.len() >= 2 && parts[1] == wanted {
            assert(parts@.map_values(|w: String| w@)[1] == parts@[1]@);
            assert(parts@.map_values(|w: String| w@)[0] == parts@[0]@);
            return Some(parts[0].clone());
        }
        proof {
            if parts.len() >= 2 {
                assert(parts@.map_values(|w: String| w@)[1] == parts@[1]@);
            }
        }
        i = next;
    }
    assert(v@.skip(i as int) =~= Seq::<char>::empty());
    None
}

/// The index of the source that monitors the default sink, from the answers
/// to the two queries.
pub fn default_sink_monitor(default_sink_output: &str, sources_output: &str) -> (res: Option<
    String,
>)
    ensures
        match res {
            Some(s) => source_index(lines(sources_output@), monitor_name(default_sink_output@))
                == Some(s@),
            None => source_index(lines(sources_output@), monitor_name(default_sink_output@)) is None,
        },
{
    let monitor = sink_monitor_name(default_sink_output);
    find_monitor_source(sources_output, monitor.as_str())
}

/// The arguments that point the recorder at a capture source: none when no
/// source is known, so that it records from its default input.
pub open spec fn target_args(target: Option<Seq<char>>) -> Seq<Seq<char>> {
    match target {
        Some(t) => seq!["--target"@, t],
        None => seq![],
    }
}

/// The recorder's arguments for the capture source `target`, if known.
pub fn recorder_target_args(target: Option<String>) -> (res: Vec<String>)
    ensures
        res@.map_values(|a: String| a@) == target_args(crate::track::opt_view(target)),
{
    let mut args: Vec<String> = Vec::new();
    match target {
        Some(t) => {
            args.push(String::from_str("--target"));
            args.push(t);
        },
        None => {},
    }
    assert(args@.map_values(|a: String| a@) =~= target_args(crate::track::opt_view(target)));
    args
}

} // verus!
