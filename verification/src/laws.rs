use vstd::prelude::*;

use crate::change::Change;
use crate::cli::NonStandardWhitespaceReplacementMode;
use crate::cli::OutputNewLineMarkerMode;
use crate::cli::TrivialFileReplacementMode;
use crate::engine::engine_changes;
use crate::engine::engine_output;
use crate::engine::finish;
use crate::engine::finish_add_end_of_file_marker;
use crate::engine::finish_remove_end_of_file_marker;
use crate::engine::finish_trailing_empty_lines;
use crate::engine::finish_trailing_whitespace;
use crate::engine::initial_scan_state;
use crate::engine::is_all_whitespace;
use crate::engine::marker_at;
use crate::engine::marker_bytes;
use crate::engine::marker_width;
use crate::engine::most_common_new_line_marker;
use crate::engine::new_line_marker_counts;
use crate::engine::new_line_marker_counts_from;
use crate::engine::resolve_new_line_marker;
use crate::engine::scan;
use crate::engine::scan_end_of_line;
use crate::engine::scan_non_standard_whitespace;
use crate::engine::scan_other;
use crate::engine::scan_space;
use crate::engine::scan_tab;
use crate::engine::NewLineMarker;
use crate::engine::Options;
use crate::engine::ScanState;
use crate::engine::CARRIAGE_RETURN;
use crate::engine::LINE_FEED;

verus! {

/// Marker counts are never negative.
proof fn lemma_counts_nonnegative(input: Seq<u8>, i: int)
    ensures
        new_line_marker_counts_from(input, i).linux >= 0,
        new_line_marker_counts_from(input, i).macos >= 0,
        new_line_marker_counts_from(input, i).windows >= 0,
    decreases input.len() - i,
{
    if 0 <= i < input.len() {
        if input[i] == CARRIAGE_RETURN && i + 1 < input.len() && input[i + 1] == LINE_FEED {
            lemma_counts_nonnegative(input, i + 2);
        } else {
            lemma_counts_nonnegative(input, i + 1);
        }
    }
}

/// Law: resolution of the automatic line-ending mode. An input without any
/// marker resolves to Linux; an input whose markers are all of one kind
/// resolves to that kind; a strict-majority kind wins; and ties are broken
/// by the fixed preference order Linux, then Windows, then MacOS.
pub proof fn lemma_auto_line_ending_resolution(input: Seq<u8>)
    ensures
        ({
            let c = new_line_marker_counts(input);
            let winner = most_common_new_line_marker(input);
            &&& (input.len() == 0 ==> winner == NewLineMarker::Linux)
            &&& (c.macos == 0 && c.windows == 0 ==> winner == NewLineMarker::Linux)
            &&& (c.macos > 0 && c.linux == 0 && c.windows == 0 ==> winner == NewLineMarker::MacOs)
            &&& (c.windows > 0 && c.linux == 0 && c.macos == 0 ==> winner
                == NewLineMarker::Windows)
            &&& (c.linux > c.macos && c.linux > c.windows ==> winner == NewLineMarker::Linux)
            &&& (c.macos > c.linux && c.macos > c.windows ==> winner == NewLineMarker::MacOs)
            &&& (c.windows > c.linux && c.windows > c.macos ==> winner == NewLineMarker::Windows)
            &&& (c.linux >= c.macos && c.linux >= c.windows ==> winner == NewLineMarker::Linux)
            &&& (c.windows >= c.macos && c.windows > c.linux ==> winner == NewLineMarker::Windows)
        }),
{
    lemma_counts_nonnegative(input, 0);
}

/// Law: the whitespace-only one-line policy is a true no-op when the input
/// already equals the single resolved marker sequence: the output is the
/// input and no change is reported.
pub proof fn lemma_whitespace_only_one_line_noop(input: Seq<u8>, opts: Options)
    requires
        opts.normalize_whitespace_only_files == TrivialFileReplacementMode::OneLine,
        input.len() > 0,
        is_all_whitespace(input),
        input == marker_bytes(resolve_new_line_marker(opts.new_line_marker, input)),
    ensures
        engine_output(input, opts) == input,
        engine_changes(input, opts).len() == 0,
{
}

/// Every byte of a marker sequence is whitespace.
proof fn lemma_marker_bytes_whitespace(m: NewLineMarker)
    ensures
        is_all_whitespace(marker_bytes(m)),
        marker_bytes(m).len() > 0,
{
    assert forall|k: int| 0 <= k < marker_bytes(m).len() implies crate::engine::is_whitespace_byte(
        #[trigger] marker_bytes(m)[k],
    ) by {
        assert(marker_bytes(m)[k] == CARRIAGE_RETURN || marker_bytes(m)[k] == LINE_FEED);
    }
}

/// A sequence holding exactly one marker resolves to that marker under the
/// automatic mode.
proof fn lemma_most_common_of_marker(m: NewLineMarker)
    ensures
        most_common_new_line_marker(marker_bytes(m)) == m,
{
    reveal_with_fuel(new_line_marker_counts_from, 3);
}

/// A marker sequence stays itself under any resolution mode: resolving the
/// output marker of a one-marker file gives that same marker.
proof fn lemma_resolve_of_marker(mode: OutputNewLineMarkerMode, input: Seq<u8>, m: NewLineMarker)
    requires
        m == resolve_new_line_marker(mode, input),
    ensures
        resolve_new_line_marker(mode, marker_bytes(m)) == m,
{
    lemma_most_common_of_marker(m);
}

/// The idempotence case of a trivial input: for a valid configuration and
/// an input that is empty or consists of whitespace only, the engine's
/// output is a fixed point.
proof fn lemma_idempotent_on_trivial_input(input: Seq<u8>, opts: Options)
    requires
        opts.valid(),
        input.len() == 0 || is_all_whitespace(input),
    ensures
        engine_output(engine_output(input, opts), opts) == engine_output(input, opts),
        engine_changes(engine_output(input, opts), opts).len() == 0,
{
    let target = resolve_new_line_marker(opts.new_line_marker, input);
    lemma_marker_bytes_whitespace(target);
    lemma_resolve_of_marker(opts.new_line_marker, input, target);
    let out1 = engine_output(input, opts);
    if input.len() == 0 {
        if opts.normalize_empty_files == TrivialFileReplacementMode::OneLine {
            assert(out1 == marker_bytes(target));
        } else {
            assert(out1 == Seq::<u8>::empty());
        }
    } else {
        if opts.normalize_whitespace_only_files == TrivialFileReplacementMode::OneLine {
            assert(out1 == marker_bytes(target));
        } else if opts.normalize_whitespace_only_files == TrivialFileReplacementMode::Empty {
            assert(out1 == Seq::<u8>::empty());
        } else {
            assert(out1 == input);
        }
    }
}

/// The scan only ever appends to the change log, and when it appends
/// nothing it has copied the remaining input verbatim.
proof fn lemma_scan_without_changes_copies(
    input: Seq<u8>,
    opts: Options,
    target: NewLineMarker,
    i: int,
    st: ScanState,
)
    requires
        0 <= i <= input.len(),
    ensures
        scan(input, opts, target, i, st).changes.len() >= st.changes.len(),
        scan(input, opts, target, i, st).changes.len() == st.changes.len() ==> scan(
            input,
            opts,
            target,
            i,
            st,
        ).out == st.out + input.subrange(i, input.len() as int),
    decreases input.len() - i,
{
    if i >= input.len() {
        assert(st.out + input.subrange(i, input.len() as int) =~= st.out);
    } else {
        let b = input[i];
        if b == CARRIAGE_RETURN || b == LINE_FEED {
            let m = marker_at(input, i);
            let w = marker_width(input, i);
            let st1 = scan_end_of_line(opts, target, m, st);
            lemma_scan_without_changes_copies(input, opts, target, i + w, st1);
            if st1.changes.len() == st.changes.len() {
                assert(marker_bytes(m) =~= input.subrange(i, i + w));
                assert(st1.out + input.subrange(i + w, input.len() as int) =~= st.out
                    + input.subrange(i, input.len() as int));
            }
        } else {
            let st1 = if b == crate::engine::SPACE {
                scan_space(st)
            } else if b == crate::engine::TAB {
                scan_tab(opts, st)
            } else if b == crate::engine::VERTICAL_TAB || b == crate::engine::FORM_FEED {
                scan_non_standard_whitespace(opts, b, st)
            } else {
                scan_other(b, st)
            };
            lemma_scan_without_changes_copies(input, opts, target, i + 1, st1);
            if st1.changes.len() == st.changes.len() {
                assert(st1.out == st.out.push(b));
                assert(st.out.push(b) + input.subrange(i + 1, input.len() as int) =~= st.out
                    + input.subrange(i, input.len() as int));
            }
        }
    }
}

/// The post-processing adjustments only ever append to the change log, and
/// when they append nothing they leave the output untouched.
proof fn lemma_finish_without_changes_copies(opts: Options, target: NewLineMarker, st: ScanState)
    ensures
        finish(opts, target, st).changes.len() >= st.changes.len(),
        finish(opts, target, st).changes.len() == st.changes.len() ==> finish(
            opts,
            target,
            st,
        ).out == st.out,
{
    let st1 = finish_trailing_whitespace(opts, st);
    let st2 = finish_trailing_empty_lines(opts, st1);
    let st3 = finish_add_end_of_file_marker(opts, target, st2);
    let st4 = finish_remove_end_of_file_marker(opts, st3);
    assert(st4 == finish(opts, target, st));
}

/// Every end-of-line marker of `s` is already the marker `target` writes:
/// with a Linux target there is no carriage return at all, with a MacOS
/// target no line feed, and with a Windows target every carriage return is
/// followed by a line feed and every line feed preceded by a carriage
/// return.
spec fn markers_normalized(target: NewLineMarker, s: Seq<u8>) -> bool {
    match target {
        NewLineMarker::Linux => forall|j: int|
            0 <= j < s.len() ==> #[trigger] s[j] != CARRIAGE_RETURN,
        NewLineMarker::MacOs => forall|j: int| 0 <= j < s.len() ==> #[trigger] s[j] != LINE_FEED,
        NewLineMarker::Windows => forall|j: int|
            0 <= j < s.len() ==> ((#[trigger] s[j] == CARRIAGE_RETURN ==> j + 1 < s.len() && s[j
                + 1] == LINE_FEED) && (s[j] == LINE_FEED ==> j >= 1 && s[j - 1]
                == CARRIAGE_RETURN)),
    }
}

/// No whitespace byte stands directly before a marker anywhere in `s`, so
/// the trailing-whitespace rule has nothing to remove at any line end.
spec fn no_whitespace_before_markers(s: Seq<u8>) -> bool {
    forall|j: int|
        1 <= j < s.len() && is_marker_byte(#[trigger] s[j]) ==> (is_marker_byte(s[j - 1])
            || !crate::engine::is_whitespace_byte(s[j - 1]))
}

/// The scan over `s`, aiming at the marker `target`, copies every byte
/// verbatim: every rule either is off or finds nothing in `s` to act on.
spec fn scan_copies(opts: Options, target: NewLineMarker, s: Seq<u8>) -> bool {
    &&& (opts.remove_trailing_whitespace ==> no_whitespace_before_markers(s))
    &&& (opts.normalize_new_line_markers ==> markers_normalized(target, s))
    &&& (opts.replace_tabs_with_spaces < 0 || forall|j: int|
        0 <= j < s.len() ==> s[j] != crate::engine::TAB)
    &&& (opts.normalize_non_standard_whitespace
        == crate::cli::NonStandardWhitespaceReplacementMode::Ignore || forall|j: int|
        0 <= j < s.len() ==> s[j] != crate::engine::VERTICAL_TAB && s[j]
            != crate::engine::FORM_FEED)
}

/// Under the discipline of [`markers_normalized`], only markers of the
/// target's own kind are ever counted, and when none is counted the
/// sequence tail holds no marker byte at all.
proof fn lemma_normalized_counts(target: NewLineMarker, s: Seq<u8>, i: int)
    requires
        0 <= i,
        markers_normalized(target, s),
        target == NewLineMarker::Windows && 1 <= i && i - 1 < s.len() ==> s[i - 1]
            != CARRIAGE_RETURN,
    ensures
        ({
            let c = new_line_marker_counts_from(s, i);
            match target {
                NewLineMarker::Linux => c.macos == 0 && c.windows == 0 && (c.linux == 0
                    ==> forall|j: int| i <= j < s.len() ==> !is_marker_byte(#[trigger] s[j])),
                NewLineMarker::MacOs => c.linux == 0 && c.windows == 0 && (c.macos == 0
                    ==> forall|j: int| i <= j < s.len() ==> !is_marker_byte(#[trigger] s[j])),
                NewLineMarker::Windows => c.linux == 0 && c.macos == 0 && (c.windows == 0
                    ==> forall|j: int| i <= j < s.len() ==> !is_marker_byte(#[trigger] s[j])),
            }
        }),
    decreases s.len() - i,
{
    lemma_counts_nonnegative(s, i + 1);
    lemma_counts_nonnegative(s, i + 2);
    if 0 <= i < s.len() {
        if s[i] == CARRIAGE_RETURN && i + 1 < s.len() && s[i + 1] == LINE_FEED {
            lemma_normalized_counts(target, s, i + 2);
        } else {
            lemma_normalized_counts(target, s, i + 1);
        }
    }
}

/// A prefix keeps the no-whitespace-before-markers discipline.
proof fn lemma_no_whitespace_before_markers_take(s: Seq<u8>, x: int)
    requires
        no_whitespace_before_markers(s),
        0 <= x <= s.len(),
    ensures
        no_whitespace_before_markers(s.take(x)),
{
    let p = s.take(x);
    assert forall|j: int| 1 <= j < p.len() && is_marker_byte(#[trigger] p[j]) implies (
    is_marker_byte(p[j - 1]) || !crate::engine::is_whitespace_byte(p[j - 1])) by {
        assert(p[j] == s[j]);
        assert(p[j - 1] == s[j - 1]);
    }
}

/// A carriage return or a line feed: the two bytes markers are made of.
spec fn is_marker_byte(b: u8) -> bool {
    b == CARRIAGE_RETURN || b == LINE_FEED
}

/// The start position of the marker that ends at `leol`: two bytes back
/// for a Windows marker, one byte back otherwise.
spec fn last_marker_start(s: Seq<u8>, leol: int) -> int {
    if leol >= 2 && s[leol - 2] == CARRIAGE_RETURN && s[leol - 1] == LINE_FEED {
        leol - 2
    } else {
        leol - 1
    }
}

/// The bytes in `[a, b)` of `s` form a single end-of-line marker.
spec fn is_single_marker(s: Seq<u8>, a: int, b: int) -> bool {
    ||| (b == a + 1 && is_marker_byte(s[a]))
    ||| (b == a + 2 && s[a] == CARRIAGE_RETURN && s[a + 1] == LINE_FEED)
}

/// What the verbatim scan's state looks like after consuming `s[..i]`: the
/// output is that prefix, nothing was recorded, and the checkpoints
/// delimit, from left to right, the closed lines, the last non-empty
/// line's content and marker, the trailing blank lines' markers, and the
/// unterminated content tail.
spec fn verbatim_scan_inv(s: Seq<u8>, i: int, st: ScanState) -> bool {
    &&& st.out == s.take(i)
    &&& st.changes == Seq::<Change>::empty()
    &&& 0 <= st.last_end_of_non_empty_line_excluding_eol_marker
    &&& st.last_end_of_non_empty_line_excluding_eol_marker
        <= st.last_end_of_non_empty_line_including_eol_marker
    &&& st.last_end_of_non_empty_line_including_eol_marker
        <= st.last_end_of_line_including_eol_marker
    &&& st.last_end_of_line_including_eol_marker <= i
    &&& 1 <= st.line_number
    &&& 0 <= st.last_non_empty_line_number
    &&& st.last_non_empty_line_number < st.line_number
    // A line was closed exactly when a marker was written.
    &&& (st.line_number >= 2 <==> st.last_end_of_line_including_eol_marker >= 1)
    // The byte just before the end of the last closed line is a marker byte,
    // and the marker it closes with was decoded greedily: a lone carriage
    // return is never followed by a line feed.
    &&& (st.last_end_of_line_including_eol_marker >= 1 ==> is_marker_byte(
        s[st.last_end_of_line_including_eol_marker - 1],
    ))
    &&& (st.last_end_of_line_including_eol_marker >= 1
        && s[st.last_end_of_line_including_eol_marker - 1] == CARRIAGE_RETURN ==> (
    st.last_end_of_line_including_eol_marker == s.len()
        || s[st.last_end_of_line_including_eol_marker] != LINE_FEED))
    // The unterminated tail holds no marker bytes, so a marker byte just
    // consumed means a line just closed; a non-whitespace byte just
    // consumed sets the last-non-whitespace checkpoint.
    &&& (forall|j: int|
        st.last_end_of_line_including_eol_marker <= j < i ==> !is_marker_byte(#[trigger] s[j]))
    &&& (i >= 1 && is_marker_byte(s[i - 1]) ==> st.last_end_of_line_including_eol_marker == i)
    &&& 0 <= st.last_non_whitespace <= i
    &&& (i >= 1 && !crate::engine::is_whitespace_byte(s[i - 1]) ==> st.last_non_whitespace == i)
    // The region between the last non-empty line and the last closed line
    // holds nothing but the markers of blank lines.
    &&& (forall|j: int|
        st.last_end_of_non_empty_line_including_eol_marker <= j
            < st.last_end_of_line_including_eol_marker ==> is_marker_byte(#[trigger] s[j]))
    // Before any line was non-empty, both of its checkpoints sit at zero.
    &&& (st.last_non_empty_line_number == 0 ==> st.last_end_of_non_empty_line_including_eol_marker
        == 0 && st.last_end_of_non_empty_line_excluding_eol_marker == 0)
    // A non-empty line ends with a non-marker content byte followed by a
    // single marker.
    &&& (st.last_non_empty_line_number >= 1 ==> st.last_end_of_non_empty_line_excluding_eol_marker
        >= 1 && !is_marker_byte(s[st.last_end_of_non_empty_line_excluding_eol_marker - 1]))
    &&& (st.last_non_empty_line_number >= 1 ==> is_single_marker(
        s,
        st.last_end_of_non_empty_line_excluding_eol_marker,
        st.last_end_of_non_empty_line_including_eol_marker,
    ))
    // The last closed line is the last non-empty line exactly when a
    // content byte stands right before its marker.
    &&& (st.last_end_of_line_including_eol_marker >= 1 ==> (
    st.last_end_of_non_empty_line_including_eol_marker == st.last_end_of_line_including_eol_marker
        <==> (last_marker_start(s, st.last_end_of_line_including_eol_marker) >= 1 && !is_marker_byte(
        s[last_marker_start(s, st.last_end_of_line_including_eol_marker) - 1],
    ))))
}

/// When every rule either is off or finds nothing to act on in `s`, the
/// scan copies `s` verbatim, records nothing, and maintains
/// [`verbatim_scan_inv`].
#[verifier::rlimit(100)]
proof fn lemma_scan_verbatim(
    s: Seq<u8>,
    opts: Options,
    target: NewLineMarker,
    i: int,
    st: ScanState,
)
    requires
        scan_copies(opts, target, s),
        0 <= i <= s.len(),
        verbatim_scan_inv(s, i, st),
    ensures
        verbatim_scan_inv(s, s.len() as int, scan(s, opts, target, i, st)),
    decreases s.len() - i,
{
    if i < s.len() {
        let b = s[i];
        if b == CARRIAGE_RETURN || b == LINE_FEED {
            let m = marker_at(s, i);
            let w = marker_width(s, i);
            if opts.remove_trailing_whitespace {
                // The byte before this marker is a marker or non-whitespace,
                // so the output already ends at a rewind checkpoint.
                assert(vstd::math::max(
                    st.last_non_whitespace,
                    st.last_end_of_line_including_eol_marker,
                ) >= i) by {
                    if i >= 1 {
                        assert(is_marker_byte(s[i]));
                        assert(is_marker_byte(s[i - 1]) || !crate::engine::is_whitespace_byte(
                            s[i - 1],
                        ));
                    }
                }
            }
            if opts.normalize_new_line_markers {
                // Every marker of `s` is already in the target's form.
                assert(m == target) by {
                    match target {
                        NewLineMarker::Linux => {
                            assert(s[i] != CARRIAGE_RETURN);
                        },
                        NewLineMarker::MacOs => {
                            assert(s[i] != LINE_FEED);
                            if i + 1 < s.len() {
                                assert(s[i + 1] != LINE_FEED);
                            }
                        },
                        NewLineMarker::Windows => {
                            if s[i] == LINE_FEED {
                                // A line feed is preceded by a carriage
                                // return, which would have been consumed
                                // together with it.
                                assert(i >= 1 && s[i - 1] == CARRIAGE_RETURN);
                                assert(st.last_end_of_line_including_eol_marker == i);
                                assert(false);
                            }
                        },
                    }
                }
            }
            let st1 = scan_end_of_line(opts, target, m, st);
            assert(marker_bytes(m) =~= s.subrange(i, i + w));
            assert(st1.out =~= s.take(i + w));
            assert(verbatim_scan_inv(s, i + w, st1));
            lemma_scan_verbatim(s, opts, target, i + w, st1);
        } else {
            let st1 = if b == crate::engine::SPACE {
                scan_space(st)
            } else if b == crate::engine::TAB {
                scan_tab(opts, st)
            } else if b == crate::engine::VERTICAL_TAB || b == crate::engine::FORM_FEED {
                scan_non_standard_whitespace(opts, b, st)
            } else {
                scan_other(b, st)
            };
            assert(st1.out =~= s.take(i + 1));
            assert(verbatim_scan_inv(s, i + 1, st1));
            lemma_scan_verbatim(s, opts, target, i + 1, st1);
        }
    }
}

/// Appending either the target's own marker or marker-free bytes to a
/// sequence whose markers are normalized keeps them normalized.
proof fn lemma_normalized_append(target: NewLineMarker, a: Seq<u8>, b: Seq<u8>)
    requires
        markers_normalized(target, a),
        b == marker_bytes(target) || (forall|j: int|
            0 <= j < b.len() ==> !is_marker_byte(#[trigger] b[j])),
    ensures
        markers_normalized(target, a + b),
{
    let c = a + b;
    match target {
        NewLineMarker::Linux => {
            assert forall|j: int| 0 <= j < c.len() implies #[trigger] c[j] != CARRIAGE_RETURN by {
                if j < a.len() {
                    assert(c[j] == a[j]);
                } else {
                    assert(c[j] == b[j - a.len()]);
                }
            }
        },
        NewLineMarker::MacOs => {
            assert forall|j: int| 0 <= j < c.len() implies #[trigger] c[j] != LINE_FEED by {
                if j < a.len() {
                    assert(c[j] == a[j]);
                } else {
                    assert(c[j] == b[j - a.len()]);
                }
            }
        },
        NewLineMarker::Windows => {
            assert forall|j: int| 0 <= j < c.len() implies ((#[trigger] c[j] == CARRIAGE_RETURN
                ==> j + 1 < c.len() && c[j + 1] == LINE_FEED) && (c[j] == LINE_FEED ==> j >= 1
                && c[j - 1] == CARRIAGE_RETURN)) by {
                if j < a.len() {
                    assert(c[j] == a[j]);
                    if a[j] == CARRIAGE_RETURN {
                        assert(j + 1 < a.len() && a[j + 1] == LINE_FEED);
                        assert(c[j + 1] == a[j + 1]);
                    }
                    if a[j] == LINE_FEED {
                        assert(j >= 1 && a[j - 1] == CARRIAGE_RETURN);
                        assert(c[j - 1] == a[j - 1]);
                    }
                } else {
                    assert(c[j] == b[j - a.len()]);
                    if b == marker_bytes(target) {
                        if j == a.len() {
                            assert(c[j + 1] == b[1]);
                        } else {
                            assert(j == a.len() + 1);
                            assert(c[j - 1] == b[0]);
                        }
                    }
                }
            }
        },
    }
}

/// A prefix cut at a position whose previous byte is no carriage return
/// keeps the markers normalized: no Windows marker is split in two.
proof fn lemma_normalized_take(target: NewLineMarker, s: Seq<u8>, x: int)
    requires
        markers_normalized(target, s),
        0 <= x <= s.len(),
        target == NewLineMarker::Windows && x >= 1 ==> s[x - 1] != CARRIAGE_RETURN,
    ensures
        markers_normalized(target, s.take(x)),
{
    let p = s.take(x);
    match target {
        NewLineMarker::Linux => {
            assert forall|j: int| 0 <= j < p.len() implies #[trigger] p[j] != CARRIAGE_RETURN by {
                assert(p[j] == s[j]);
            }
        },
        NewLineMarker::MacOs => {
            assert forall|j: int| 0 <= j < p.len() implies #[trigger] p[j] != LINE_FEED by {
                assert(p[j] == s[j]);
            }
        },
        NewLineMarker::Windows => {
            assert forall|j: int| 0 <= j < p.len() implies ((#[trigger] p[j] == CARRIAGE_RETURN
                ==> j + 1 < p.len() && p[j + 1] == LINE_FEED) && (p[j] == LINE_FEED ==> j >= 1
                && p[j - 1] == CARRIAGE_RETURN)) by {
                assert(p[j] == s[j]);
                if s[j] == CARRIAGE_RETURN {
                    assert(j + 1 < s.len() && s[j + 1] == LINE_FEED);
                    assert(j + 1 < x);
                    assert(p[j + 1] == s[j + 1]);
                }
                if s[j] == LINE_FEED {
                    assert(j >= 1 && s[j - 1] == CARRIAGE_RETURN);
                    assert(p[j - 1] == s[j - 1]);
                }
            }
        },
    }
}

/// Resolving the output marker of a normalized sequence yields a marker
/// the sequence is also normalized for: a fixed mode names the target
/// itself, and the automatic mode picks the target whenever any marker is
/// present at all.
proof fn lemma_normalized_resolve(mode: OutputNewLineMarkerMode, target: NewLineMarker, s: Seq<u8>)
    requires
        markers_normalized(target, s),
        match mode {
            OutputNewLineMarkerMode::Auto => true,
            OutputNewLineMarkerMode::Linux => target == NewLineMarker::Linux,
            OutputNewLineMarkerMode::MacOs => target == NewLineMarker::MacOs,
            OutputNewLineMarkerMode::Windows => target == NewLineMarker::Windows,
        },
    ensures
        markers_normalized(resolve_new_line_marker(mode, s), s),
{
    if mode == OutputNewLineMarkerMode::Auto {
        lemma_normalized_counts(target, s, 0);
        lemma_counts_nonnegative(s, 0);
        let resolved = most_common_new_line_marker(s);
        if resolved != target {
            assert(forall|j: int| 0 <= j < s.len() ==> !is_marker_byte(#[trigger] s[j]));
            match resolved {
                NewLineMarker::Linux => {
                    assert forall|j: int| 0 <= j < s.len() implies #[trigger] s[j]
                        != CARRIAGE_RETURN by {
                        assert(!is_marker_byte(s[j]));
                    }
                },
                NewLineMarker::MacOs => {
                    assert forall|j: int| 0 <= j < s.len() implies #[trigger] s[j] != LINE_FEED by {
                        assert(!is_marker_byte(s[j]));
                    }
                },
                NewLineMarker::Windows => {
                    assert forall|j: int| 0 <= j < s.len() implies ((#[trigger] s[j]
                        == CARRIAGE_RETURN ==> j + 1 < s.len() && s[j + 1] == LINE_FEED) && (s[j]
                        == LINE_FEED ==> j >= 1 && s[j - 1] == CARRIAGE_RETURN)) by {
                        assert(!is_marker_byte(s[j]));
                    }
                },
            }
        }
    }
}

/// What the scan's state looks like after consuming `s[..i]`, under any
/// configuration: the output holds nothing the enabled per-byte rules
/// would still act on, and the checkpoints delimit the same regions of the
/// output as in [`verbatim_scan_inv`].
spec fn scan_checkpoints_inv(
    opts: Options,
    target: NewLineMarker,
    s: Seq<u8>,
    i: int,
    st: ScanState,
) -> bool {
    &&& 0 <= st.last_end_of_non_empty_line_excluding_eol_marker
    &&& st.last_end_of_non_empty_line_excluding_eol_marker
        <= st.last_end_of_non_empty_line_including_eol_marker
    &&& st.last_end_of_non_empty_line_including_eol_marker
        <= st.last_end_of_line_including_eol_marker
    &&& st.last_end_of_line_including_eol_marker <= st.out.len()
    &&& 1 <= st.line_number
    &&& 0 <= st.last_non_empty_line_number
    &&& st.last_non_empty_line_number < st.line_number
    &&& (st.line_number >= 2 <==> st.last_end_of_line_including_eol_marker >= 1)
    &&& (st.last_end_of_line_including_eol_marker >= 1 ==> is_marker_byte(
        st.out[st.last_end_of_line_including_eol_marker - 1],
    ))
    &&& (forall|j: int|
        st.last_end_of_line_including_eol_marker <= j < st.out.len() ==> !is_marker_byte(
            #[trigger] st.out[j],
        ))
    &&& (forall|j: int|
        st.last_end_of_non_empty_line_including_eol_marker <= j
            < st.last_end_of_line_including_eol_marker ==> is_marker_byte(#[trigger] st.out[j]))
    &&& (st.last_non_empty_line_number == 0 ==> st.last_end_of_non_empty_line_including_eol_marker
        == 0 && st.last_end_of_non_empty_line_excluding_eol_marker == 0)
    &&& (st.last_non_empty_line_number >= 1 ==> st.last_end_of_non_empty_line_excluding_eol_marker
        >= 1 && !is_marker_byte(st.out[st.last_end_of_non_empty_line_excluding_eol_marker - 1]))
    &&& (st.last_non_empty_line_number >= 1 ==> is_single_marker(
        st.out,
        st.last_end_of_non_empty_line_excluding_eol_marker,
        st.last_end_of_non_empty_line_including_eol_marker,
    ))
    // Nothing the tab or non-standard whitespace rules rewrite survives
    // into the output, and under normalization neither does a foreign
    // marker; the last non-empty line's marker is then exactly the target.
    &&& (opts.replace_tabs_with_spaces >= 0 ==> forall|j: int|
        0 <= j < st.out.len() ==> #[trigger] st.out[j] != crate::engine::TAB)
    &&& (opts.normalize_non_standard_whitespace
        != NonStandardWhitespaceReplacementMode::Ignore ==> forall|j: int|
        0 <= j < st.out.len() ==> #[trigger] st.out[j] != crate::engine::VERTICAL_TAB && st.out[j]
            != crate::engine::FORM_FEED)
    &&& (opts.normalize_new_line_markers ==> markers_normalized(target, st.out))
    &&& (opts.normalize_new_line_markers && st.last_non_empty_line_number >= 1 ==> st.out.subrange(
        st.last_end_of_non_empty_line_excluding_eol_marker,
        st.last_end_of_non_empty_line_including_eol_marker,
    ) == marker_bytes(target))
    // The last-non-whitespace checkpoint sits one past a non-whitespace
    // byte, inside the last non-empty line's content or in the
    // unterminated tail, everything at or after it is whitespace, and it
    // is zero only while everything consumed so far was whitespace.
    &&& 0 <= st.last_non_whitespace <= st.out.len()
    &&& (st.last_non_whitespace >= 1 ==> !crate::engine::is_whitespace_byte(
        st.out[st.last_non_whitespace - 1],
    ))
    &&& (st.last_non_whitespace <= st.last_end_of_non_empty_line_excluding_eol_marker
        || st.last_non_whitespace > st.last_end_of_line_including_eol_marker)
    &&& (st.last_non_whitespace == 0 ==> is_all_whitespace(s.take(i)))
    &&& (forall|j: int|
        st.last_non_whitespace <= j < st.out.len() ==> crate::engine::is_whitespace_byte(
            #[trigger] st.out[j],
        ))
    // Under trailing-whitespace removal no whitespace survives directly
    // before a marker, and the last non-empty line's content ends in a
    // non-whitespace byte.
    &&& (opts.remove_trailing_whitespace ==> forall|j: int|
        1 <= j < st.out.len() && is_marker_byte(#[trigger] st.out[j]) ==> (is_marker_byte(
            st.out[j - 1],
        ) || !crate::engine::is_whitespace_byte(st.out[j - 1])))
    &&& (opts.remove_trailing_whitespace && st.last_non_empty_line_number >= 1
        ==> !crate::engine::is_whitespace_byte(
        st.out[st.last_end_of_non_empty_line_excluding_eol_marker - 1],
    ))
}

/// A whitespace prefix extended by whitespace bytes stays whitespace.
proof fn lemma_all_whitespace_extend(s: Seq<u8>, i: int, k: int)
    requires
        0 <= i,
        0 <= k,
        i + k <= s.len(),
        is_all_whitespace(s.take(i)),
        is_all_whitespace(s.subrange(i, i + k)),
    ensures
        is_all_whitespace(s.take(i + k)),
{
    assert forall|j: int| 0 <= j < i + k implies crate::engine::is_whitespace_byte(
        #[trigger] s.take(i + k)[j],
    ) by {
        if j < i {
            assert(s.take(i + k)[j] == s.take(i)[j]);
        } else {
            assert(s.take(i + k)[j] == s.subrange(i, i + k)[j - i]);
        }
    }
}

/// A trailing-whitespace rewind never splits a marker: the rewind target
/// is the last non-whitespace byte or the last marker end, and neither is
/// followed by the line feed of a Windows marker.
proof fn lemma_eol_rewind_normalized(opts: Options, target: NewLineMarker, st: ScanState)
    requires
        opts.normalize_new_line_markers,
        markers_normalized(target, st.out),
        0 <= st.last_non_whitespace <= st.out.len(),
        0 <= st.last_end_of_line_including_eol_marker <= st.out.len(),
        vstd::math::max(st.last_non_whitespace, st.last_end_of_line_including_eol_marker)
            < st.out.len(),
        forall|j: int|
            st.last_end_of_line_including_eol_marker <= j < st.out.len() ==> !is_marker_byte(
                #[trigger] st.out[j],
            ),
    ensures
        markers_normalized(
            target,
            st.out.take(
                vstd::math::max(
                    st.last_non_whitespace,
                    st.last_end_of_line_including_eol_marker,
                ),
            ),
        ),
{
    let lnw = st.last_non_whitespace;
    let leol = st.last_end_of_line_including_eol_marker;
    let rewind_to = vstd::math::max(lnw, leol);
    assert(target == NewLineMarker::Windows && rewind_to >= 1 ==> st.out[rewind_to - 1]
        != CARRIAGE_RETURN) by {
        if target == NewLineMarker::Windows && rewind_to >= 1 && st.out[rewind_to - 1]
            == CARRIAGE_RETURN {
            assert(st.out[rewind_to] == LINE_FEED);
            assert(rewind_to >= leol);
            assert(!is_marker_byte(st.out[rewind_to]));
            assert(false);
        }
    }
    lemma_normalized_take(target, st.out, rewind_to);
}

/// One end-of-line step maintains [`scan_checkpoints_inv`]: the possible
/// trailing-whitespace rewind lands on one of the two checkpoints, and the
/// written marker closes the line behind a marker byte or a content byte.
#[verifier::rlimit(100)]
#[verifier::spinoff_prover]
proof fn lemma_scan_checkpoints_end_of_line(
    s: Seq<u8>,
    opts: Options,
    target: NewLineMarker,
    i: int,
    st: ScanState,
)
    requires
        0 <= i < s.len(),
        s[i] == CARRIAGE_RETURN || s[i] == LINE_FEED,
        scan_checkpoints_inv(opts, target, s, i, st),
    ensures
        scan_checkpoints_inv(
            opts,
            target,
            s,
            i + marker_width(s, i),
            scan_end_of_line(opts, target, marker_at(s, i), st),
        ),
{
    let m = marker_at(s, i);
    let w = marker_width(s, i);
    let st1 = scan_end_of_line(opts, target, m, st);
    let lnw = st.last_non_whitespace;
    let leol = st.last_end_of_line_including_eol_marker;
    let rewind_to = vstd::math::max(lnw, leol);
    let rewound = opts.remove_trailing_whitespace && rewind_to < st.out.len();
    let trimmed = if rewound {
        st.out.take(rewind_to)
    } else {
        st.out
    };
    let written = if opts.normalize_new_line_markers && target != m {
        marker_bytes(target)
    } else {
        marker_bytes(m)
    };
    assert(st1.out == trimmed + written);
    // Under trailing-whitespace removal the trimmed output ends at one of
    // the two checkpoints: a marker byte or a non-whitespace byte.
    assert(opts.remove_trailing_whitespace && trimmed.len() >= 1 ==> (is_marker_byte(
        trimmed[trimmed.len() - 1],
    ) || !crate::engine::is_whitespace_byte(trimmed[trimmed.len() - 1]))) by {
        if opts.remove_trailing_whitespace && trimmed.len() >= 1 {
            let e = trimmed.len() - 1;
            if rewound {
                if lnw >= leol {
                    assert(trimmed[e] == st.out[lnw - 1]);
                } else {
                    assert(trimmed[e] == st.out[leol - 1]);
                }
            } else {
                // No rewind happened, so the output already ends at a
                // checkpoint.
                assert(rewind_to >= st.out.len());
                if lnw >= leol {
                    assert(e == lnw - 1);
                } else {
                    assert(e == leol - 1);
                }
            }
        }
    }
    if opts.normalize_new_line_markers {
        assert(written == marker_bytes(target));
        if rewound {
            lemma_eol_rewind_normalized(opts, target, st);
        }
        lemma_normalized_append(target, trimmed, written);
        assert(st1.out.subrange(st1.out.len() - written.len(), st1.out.len() as int) =~= written);
        if st1.last_non_empty_line_number >= 1
            && st1.last_end_of_non_empty_line_including_eol_marker
            < st1.last_end_of_line_including_eol_marker {
            assert(st1.out.subrange(
                st1.last_end_of_non_empty_line_excluding_eol_marker,
                st1.last_end_of_non_empty_line_including_eol_marker,
            ) =~= st.out.subrange(
                st.last_end_of_non_empty_line_excluding_eol_marker,
                st.last_end_of_non_empty_line_including_eol_marker,
            ));
        }
    }
    lemma_marker_bytes_whitespace(m);
    assert(is_all_whitespace(s.subrange(i, i + w))) by {
        assert(marker_bytes(m) =~= s.subrange(i, i + w));
    }
    if st.last_non_whitespace == 0 {
        lemma_all_whitespace_extend(s, i, w);
    }
    // Everything the trimmed output kept reads as before.
    assert(forall|j: int| 0 <= j < trimmed.len() ==> #[trigger] st1.out[j] == st.out[j]);
    assert(forall|j: int|
        trimmed.len() <= j < st1.out.len() ==> #[trigger] st1.out[j] == written[j - trimmed.len()]);
    assert(lnw <= trimmed.len());
    assert(st.last_end_of_non_empty_line_including_eol_marker <= trimmed.len());
    if opts.remove_trailing_whitespace {
        assert(forall|j: int|
            1 <= j < st1.out.len() && is_marker_byte(#[trigger] st1.out[j]) ==> (is_marker_byte(
                st1.out[j - 1],
            ) || !crate::engine::is_whitespace_byte(st1.out[j - 1]))) by {
            assert forall|j: int|
                1 <= j < st1.out.len() && is_marker_byte(#[trigger] st1.out[j]) implies (
            is_marker_byte(st1.out[j - 1]) || !crate::engine::is_whitespace_byte(
                st1.out[j - 1],
            )) by {
                if j < trimmed.len() {
                    assert(st1.out[j] == st.out[j]);
                    assert(st1.out[j - 1] == st.out[j - 1]);
                } else if j == trimmed.len() {
                    assert(st1.out[j - 1] == trimmed[trimmed.len() - 1]);
                } else {
                    assert(st1.out[j - 1] == written[j - 1 - trimmed.len()]);
                }
            }
        }
    }
    if st1.last_non_empty_line_number >= 1 && st1.last_end_of_non_empty_line_including_eol_marker
        == st1.out.len() {
        // The line just closed was non-empty: its marker is exactly what
        // was written, preceded by the trimmed output's final byte.
        assert(st.last_end_of_line_including_eol_marker < trimmed.len());
        assert(is_single_marker(st1.out, trimmed.len() as int, st1.out.len() as int));
    }
    assert(scan_checkpoints_inv(opts, target, s, i + w, st1));
}

/// The scan maintains [`scan_checkpoints_inv`] under every configuration.
#[verifier::rlimit(100)]
proof fn lemma_scan_checkpoints(
    s: Seq<u8>,
    opts: Options,
    target: NewLineMarker,
    i: int,
    st: ScanState,
)
    requires
        0 <= i <= s.len(),
        scan_checkpoints_inv(opts, target, s, i, st),
    ensures
        scan_checkpoints_inv(opts, target, s, s.len() as int, scan(s, opts, target, i, st)),
    decreases s.len() - i,
{
    if i < s.len() {
        let b = s[i];
        if b == CARRIAGE_RETURN || b == LINE_FEED {
            let m = marker_at(s, i);
            let w = marker_width(s, i);
            let st1 = scan_end_of_line(opts, target, m, st);
            lemma_scan_checkpoints_end_of_line(s, opts, target, i, st);
            lemma_scan_checkpoints(s, opts, target, i + w, st1);
        } else {
            let st1 = if b == crate::engine::SPACE {
                scan_space(st)
            } else if b == crate::engine::TAB {
                scan_tab(opts, st)
            } else if b == crate::engine::VERTICAL_TAB || b == crate::engine::FORM_FEED {
                scan_non_standard_whitespace(opts, b, st)
            } else {
                scan_other(b, st)
            };
            // Whatever this step wrote is free of marker bytes.
            assert(st1.out == st.out + st1.out.subrange(st.out.len() as int, st1.out.len() as int)
                && (forall|j: int|
                st.out.len() <= j < st1.out.len() ==> !is_marker_byte(#[trigger] st1.out[j])))
                by {
                assert(st1.out =~= st.out + st1.out.subrange(
                    st.out.len() as int,
                    st1.out.len() as int,
                ));
            }
            if opts.normalize_new_line_markers {
                let appended = st1.out.subrange(st.out.len() as int, st1.out.len() as int);
                assert(forall|j: int|
                    0 <= j < appended.len() ==> !is_marker_byte(#[trigger] appended[j]));
                lemma_normalized_append(target, st.out, appended);
                if st1.last_non_empty_line_number >= 1 {
                    assert(st1.out.subrange(
                        st1.last_end_of_non_empty_line_excluding_eol_marker,
                        st1.last_end_of_non_empty_line_including_eol_marker,
                    ) =~= st.out.subrange(
                        st.last_end_of_non_empty_line_excluding_eol_marker,
                        st.last_end_of_non_empty_line_including_eol_marker,
                    ));
                }
            }
            assert(s.take(i) =~= s.take(i + 1).take(i));
            assert(!crate::engine::is_whitespace_byte(b) ==> !is_all_whitespace(s.take(i + 1)))
                by {
                assert(s.take(i + 1)[i] == b);
            }
            assert(crate::engine::is_whitespace_byte(b) && is_all_whitespace(s.take(i))
                ==> is_all_whitespace(s.take(i + 1))) by {
                if crate::engine::is_whitespace_byte(b) && is_all_whitespace(s.take(i)) {
                    assert forall|k: int| 0 <= k < i + 1 implies crate::engine::is_whitespace_byte(
                        #[trigger] s.take(i + 1)[k],
                    ) by {
                        if k < i {
                            assert(s.take(i + 1)[k] == s.take(i)[k]);
                        } else {
                            assert(s.take(i + 1)[k] == b);
                        }
                    }
                }
            }
            assert(scan_checkpoints_inv(opts, target, s, i + 1, st1));
            lemma_scan_checkpoints(s, opts, target, i + 1, st1);
        }
    }
}

/// A second run over a nonempty, not-all-whitespace output that ends in a
/// content byte reports nothing: its final line is unterminated, so no
/// remaining rule finds work.
proof fn lemma_second_run_unterminated(s: Seq<u8>, opts: Options)
    requires
        scan_copies(opts, resolve_new_line_marker(opts.new_line_marker, s), s),
        s.len() > 0,
        !is_all_whitespace(s),
        !is_marker_byte(s[s.len() - 1]),
        opts.remove_trailing_whitespace ==> !crate::engine::is_whitespace_byte(s[s.len() - 1]),
        !opts.add_new_line_marker_at_end_of_file,
    ensures
        engine_changes(s, opts).len() == 0,
        engine_output(s, opts) == s,
{
    let n = s.len() as int;
    let target = resolve_new_line_marker(opts.new_line_marker, s);
    let init = initial_scan_state();
    assert(init.out =~= s.take(0));
    lemma_scan_verbatim(s, opts, target, 0, init);
    let st = scan(s, opts, target, 0, init);
    assert(st.out =~= s);
    assert(st.last_end_of_line_including_eol_marker < n) by {
        if st.last_end_of_line_including_eol_marker == n {
            assert(is_marker_byte(s[n - 1]));
        }
    }
    if opts.remove_trailing_whitespace {
        assert(st.last_non_whitespace == n);
    }
    assert(finish(opts, target, st) == st);
}

/// A second run over a nonempty, not-all-whitespace output that ends at an
/// end-of-line marker reports nothing, provided the marker-removal rule is
/// off and, where the blank-line rule is on, the output's tail is a single
/// marker preceded by a content byte (so the final line is non-empty).
#[verifier::rlimit(100)]
proof fn lemma_second_run_terminated(s: Seq<u8>, opts: Options, a: int)
    requires
        scan_copies(opts, resolve_new_line_marker(opts.new_line_marker, s), s),
        s.len() > 0,
        !is_all_whitespace(s),
        is_marker_byte(s[s.len() - 1]),
        !opts.remove_new_line_marker_from_end_of_file,
        opts.remove_trailing_empty_lines ==> a >= 1 && !is_marker_byte(s[a - 1])
            && is_single_marker(s, a, s.len() as int),
    ensures
        engine_changes(s, opts).len() == 0,
        engine_output(s, opts) == s,
{
    let n = s.len() as int;
    let target = resolve_new_line_marker(opts.new_line_marker, s);
    let init = initial_scan_state();
    assert(init.out =~= s.take(0));
    lemma_scan_verbatim(s, opts, target, 0, init);
    let st = scan(s, opts, target, 0, init);
    assert(st.out =~= s);
    assert(st.last_end_of_line_including_eol_marker == n) by {
        if st.last_end_of_line_including_eol_marker < n {
            assert(!is_marker_byte(s[n - 1]));
        }
    }
    if opts.remove_trailing_empty_lines {
        assert(last_marker_start(s, n) == a) by {
            if n == a + 1 {
                if n >= 2 && s[n - 2] == CARRIAGE_RETURN && s[n - 1] == LINE_FEED {
                    assert(s[a - 1] == s[n - 2]);
                    assert(false);
                }
            }
        }
        assert(st.last_end_of_non_empty_line_including_eol_marker == n);
    }
    assert(finish(opts, target, st) == st);
}

/// The idempotence case in which the final-line trailing-whitespace
/// rewind fired: the output was cut back to the last non-whitespace byte,
/// possibly past the last marker, and the add-marker rule may then have
/// appended the resolved marker.
#[verifier::rlimit(100)]
proof fn lemma_idempotent_after_whitespace_rewind(input: Seq<u8>, opts: Options)
    requires
        opts.valid(),
        input.len() > 0,
        !is_all_whitespace(input),
        ({
            let st0 = scan(
                input,
                opts,
                resolve_new_line_marker(opts.new_line_marker, input),
                0,
                initial_scan_state(),
            );
            opts.remove_trailing_whitespace && st0.last_end_of_line_including_eol_marker
                < st0.out.len() && st0.last_non_whitespace < st0.out.len()
        }),
    ensures
        engine_output(engine_output(input, opts), opts) == engine_output(input, opts),
        engine_changes(engine_output(input, opts), opts).len() == 0,
{
    let len = input.len() as int;
    let target = resolve_new_line_marker(opts.new_line_marker, input);
    let init = initial_scan_state();
    assert(input.take(0) =~= Seq::<u8>::empty());
    assert(scan_checkpoints_inv(opts, target, input, 0, init));
    lemma_scan_checkpoints(input, opts, target, 0, init);
    let st0 = scan(input, opts, target, 0, init);
    let out0 = st0.out;
    let n0 = out0.len() as int;
    assert(input.take(len) =~= input);
    let leol = st0.last_end_of_line_including_eol_marker;
    let lnw = st0.last_non_whitespace;

    // The output still holds a byte that is not whitespace.
    assert(lnw >= 1) by {
        if lnw == 0 {
            assert(is_all_whitespace(input.take(len)));
        }
    }
    let w_idx = lnw - 1;
    assert(!crate::engine::is_whitespace_byte(out0[w_idx]));
    assert(!is_marker_byte(out0[w_idx]));

    let f1 = finish_trailing_whitespace(opts, st0);
    let f2 = finish_trailing_empty_lines(opts, f1);
    let f3 = finish_add_end_of_file_marker(opts, target, f2);
    let fin = finish_remove_end_of_file_marker(opts, f3);
    let out1 = fin.out;
    assert(engine_output(input, opts) == out1);
    assert(engine_changes(input, opts) == fin.changes);

    // The trailing-whitespace rule rewinds the unterminated tail to the
    // last non-whitespace byte, possibly past the last marker. The
    // blank-line and marker-removal rules then find the end-of-line
    // checkpoint away from the output's end; only the add-marker rule may
    // still append the resolved marker, terminating the now non-empty
    // final line.
    let p = out0.take(lnw);
    assert(f1.out =~= p);
    assert(leol != lnw) by {
        if leol == lnw {
            assert(!crate::engine::is_whitespace_byte(out0[lnw - 1]));
            assert(is_marker_byte(out0[leol - 1]));
        }
    }
    assert(p[w_idx] == out0[w_idx]);
    assert(!crate::engine::is_whitespace_byte(p[p.len() - 1]));
    if opts.normalize_new_line_markers {
        lemma_normalized_take(target, out0, lnw);
    }
    lemma_no_whitespace_before_markers_take(out0, lnw);
    if opts.add_new_line_marker_at_end_of_file {
        assert(!opts.remove_new_line_marker_from_end_of_file);
        assert(out1 =~= p + marker_bytes(target));
        assert(out1[w_idx] == out0[w_idx]);
        assert(!is_all_whitespace(out1)) by {
            if is_all_whitespace(out1) {
                assert(crate::engine::is_whitespace_byte(out1[w_idx]));
            }
        }
        assert(forall|j: int|
            lnw <= j < out1.len() ==> is_marker_byte(#[trigger] out1[j]));
        if opts.normalize_new_line_markers {
            lemma_normalized_append(target, p, marker_bytes(target));
            lemma_normalized_resolve(opts.new_line_marker, target, out1);
        }
        assert(no_whitespace_before_markers(out1)) by {
            assert forall|j: int|
                1 <= j < out1.len() && is_marker_byte(#[trigger] out1[j]) implies (
            is_marker_byte(out1[j - 1]) || !crate::engine::is_whitespace_byte(
                out1[j - 1],
            )) by {
                if j < lnw {
                    assert(out1[j] == p[j]);
                    assert(out1[j - 1] == p[j - 1]);
                } else if j == lnw {
                    assert(out1[j - 1] == p[lnw - 1]);
                } else {
                    assert(is_marker_byte(out1[j - 1]));
                }
            }
        }
        assert(scan_copies(
            opts,
            resolve_new_line_marker(opts.new_line_marker, out1),
            out1,
        ));
        assert(is_single_marker(out1, lnw, out1.len() as int));
        assert(is_marker_byte(out1[out1.len() - 1]));
        assert(!is_marker_byte(out1[lnw - 1]));
        lemma_second_run_terminated(out1, opts, lnw);
    } else {
        assert(out1 =~= p);
        assert(out1[w_idx] == out0[w_idx]);
        assert(!is_all_whitespace(out1)) by {
            if is_all_whitespace(out1) {
                assert(crate::engine::is_whitespace_byte(out1[w_idx]));
            }
        }
        if opts.normalize_new_line_markers {
            lemma_normalized_resolve(opts.new_line_marker, target, out1);
        }
        assert(scan_copies(
            opts,
            resolve_new_line_marker(opts.new_line_marker, out1),
            out1,
        ));
        lemma_second_run_unterminated(out1, opts);
    }
}

/// Law: idempotence. For any valid configuration and any input, the
/// engine's output is a fixed point: a second run emits the same bytes
/// and reports no changes.
#[verifier::rlimit(100)]
pub proof fn lemma_idempotent_engine(input: Seq<u8>, opts: Options)
    requires
        opts.valid(),
    ensures
        engine_output(engine_output(input, opts), opts) == engine_output(input, opts),
        engine_changes(engine_output(input, opts), opts).len() == 0,
{
    if input.len() == 0 || is_all_whitespace(input) {
        lemma_idempotent_on_trivial_input(input, opts);
    } else {
        let len = input.len() as int;
        let target = resolve_new_line_marker(opts.new_line_marker, input);
        let init = initial_scan_state();
        assert(input.take(0) =~= Seq::<u8>::empty());
        assert(scan_checkpoints_inv(opts, target, input, 0, init));
        lemma_scan_checkpoints(input, opts, target, 0, init);
        let st0 = scan(input, opts, target, 0, init);
        let out0 = st0.out;
        let n0 = out0.len() as int;
        assert(input.take(len) =~= input);
        let leol = st0.last_end_of_line_including_eol_marker;
        let ni = st0.last_end_of_non_empty_line_including_eol_marker;
        let ne = st0.last_end_of_non_empty_line_excluding_eol_marker;
        let nl = st0.last_non_empty_line_number;
        let lnw = st0.last_non_whitespace;

        // The output still holds a byte that is not whitespace.
        assert(lnw >= 1) by {
            if lnw == 0 {
                assert(is_all_whitespace(input.take(len)));
            }
        }
        let w_idx = lnw - 1;
        assert(!crate::engine::is_whitespace_byte(out0[w_idx]));
        assert(!is_marker_byte(out0[w_idx]));

        // The output holds nothing the tab or non-standard whitespace
        // rules rewrite, so a second scan over any piece of it, possibly
        // with one marker appended, copies verbatim.
        assert(forall|j: int|
            opts.replace_tabs_with_spaces >= 0 && 0 <= j < n0 ==> #[trigger] out0[j]
                != crate::engine::TAB);

        let f1 = finish_trailing_whitespace(opts, st0);
        let f2 = finish_trailing_empty_lines(opts, f1);
        let f3 = finish_add_end_of_file_marker(opts, target, f2);
        let fin = finish_remove_end_of_file_marker(opts, f3);
        let out1 = fin.out;
        assert(engine_output(input, opts) == out1);
        assert(engine_changes(input, opts) == fin.changes);

        let c1 = opts.remove_trailing_whitespace && leol < n0 && lnw < n0;
        assert(!c1 ==> f1 == st0);
        let c2 = opts.remove_trailing_empty_lines && leol == n0 && ni < n0;
        let c3 = opts.add_new_line_marker_at_end_of_file
            && f2.last_end_of_line_including_eol_marker != f2.out.len();
        let c4 = opts.remove_new_line_marker_from_end_of_file
            && f3.last_end_of_line_including_eol_marker == f3.out.len() && f3.line_number >= 2;

        if !c1 && (c2 || c4) {
            // Either rewind happens only when every line is closed, and
            // then the non-whitespace byte sits inside the last non-empty
            // line's content, which both rewinds keep.
            assert(leol == n0);
            assert(lnw <= ne);
            assert(nl >= 1) by {
                if nl == 0 {
                    assert(ne == 0);
                }
            }
        }
        if c1 {
            lemma_idempotent_after_whitespace_rewind(input, opts);
        } else if c4 {
            assert(!c3);
            assert(out1 =~= out0.take(ne));
            assert(out1[w_idx] == out0[w_idx]);
            assert(!is_all_whitespace(out1)) by {
                if is_all_whitespace(out1) {
                    assert(crate::engine::is_whitespace_byte(out1[w_idx]));
                }
            }
            if opts.normalize_new_line_markers {
                lemma_normalized_take(target, out0, ne);
                lemma_normalized_resolve(opts.new_line_marker, target, out1);
            }
            assert(scan_copies(opts, resolve_new_line_marker(opts.new_line_marker, out1), out1));
            assert(!is_marker_byte(out1[out1.len() - 1]));
            assert(!opts.add_new_line_marker_at_end_of_file);
            lemma_second_run_unterminated(out1, opts);
        } else if c2 {
            assert(!opts.remove_new_line_marker_from_end_of_file) by {
                if opts.remove_new_line_marker_from_end_of_file {
                    assert(c4);
                }
            }
            assert(!c3);
            assert(out1 =~= out0.take(ni));
            assert(out1[w_idx] == out0[w_idx]);
            assert(!is_all_whitespace(out1)) by {
                if is_all_whitespace(out1) {
                    assert(crate::engine::is_whitespace_byte(out1[w_idx]));
                }
            }
            if opts.normalize_new_line_markers {
                assert(out0.subrange(ne, ni) == marker_bytes(target));
                assert(out0[ni - 1] == marker_bytes(target)[ni - 1 - ne]);
                if target == NewLineMarker::Windows {
                    assert(out0[ni - 1] == LINE_FEED);
                }
                lemma_normalized_take(target, out0, ni);
                lemma_normalized_resolve(opts.new_line_marker, target, out1);
            }
            assert(scan_copies(opts, resolve_new_line_marker(opts.new_line_marker, out1), out1));
            assert(is_single_marker(out0, ne, ni));
            assert(is_single_marker(out1, ne, out1.len() as int));
            assert(is_marker_byte(out1[out1.len() - 1]));
            assert(!is_marker_byte(out1[ne - 1]));
            lemma_second_run_terminated(out1, opts, ne);
        } else if c3 {
            assert(f2 == st0);
            assert(leol <= n0);
            assert(leol < n0);
            assert(!is_marker_byte(out0[n0 - 1]));
            assert(out1 =~= out0 + marker_bytes(target));
            assert(out1[w_idx] == out0[w_idx]);
            assert(!is_all_whitespace(out1)) by {
                if is_all_whitespace(out1) {
                    assert(crate::engine::is_whitespace_byte(out1[w_idx]));
                }
            }
            if opts.normalize_new_line_markers {
                lemma_normalized_append(target, out0, marker_bytes(target));
                lemma_normalized_resolve(opts.new_line_marker, target, out1);
            }
            assert(scan_copies(opts, resolve_new_line_marker(opts.new_line_marker, out1), out1)) by {
                assert(forall|j: int|
                    n0 <= j < out1.len() ==> is_marker_byte(#[trigger] out1[j]));
            }
            assert(is_single_marker(out1, n0, out1.len() as int));
            assert(is_marker_byte(out1[out1.len() - 1]));
            assert(!is_marker_byte(out1[n0 - 1]));
            assert(!opts.remove_new_line_marker_from_end_of_file);
            lemma_second_run_terminated(out1, opts, n0);
        } else {
            // Nothing fired: the rewritten input itself is already in
            // normal form for the remaining rules.
            assert(out1 == out0);
            assert(!is_all_whitespace(out1)) by {
                if is_all_whitespace(out1) {
                    assert(crate::engine::is_whitespace_byte(out1[w_idx]));
                }
            }
            if opts.normalize_new_line_markers {
                lemma_normalized_resolve(opts.new_line_marker, target, out1);
            }
            assert(scan_copies(opts, resolve_new_line_marker(opts.new_line_marker, out1), out1));
            if leol < n0 {
                assert(!is_marker_byte(out0[n0 - 1]));
                assert(!opts.add_new_line_marker_at_end_of_file) by {
                    if opts.add_new_line_marker_at_end_of_file {
                        assert(c3);
                    }
                }
                lemma_second_run_unterminated(out1, opts);
            } else {
                assert(is_marker_byte(out0[n0 - 1]));
                assert(!opts.remove_new_line_marker_from_end_of_file) by {
                    if opts.remove_new_line_marker_from_end_of_file {
                        assert(st0.line_number >= 2);
                        assert(c4);
                    }
                }
                if opts.remove_trailing_empty_lines {
                    assert(ni == n0);
                    assert(nl >= 1) by {
                        if nl == 0 {
                            assert(ni == 0);
                        }
                    }
                    assert(is_single_marker(out1, ne, out1.len() as int));
                    assert(!is_marker_byte(out1[ne - 1]));
                    lemma_second_run_terminated(out1, opts, ne);
                } else {
                    lemma_second_run_terminated(out1, opts, 0);
                }
            }
        }
    }
}

/// Law: dry-run/apply consistency in both directions. Under any valid
/// configuration the engine reports no changes exactly when applying it
/// would leave the bytes untouched.
pub proof fn lemma_dry_run_apply_consistency(input: Seq<u8>, opts: Options)
    requires
        opts.valid(),
    ensures
        engine_changes(input, opts).len() == 0 <==> engine_output(input, opts) == input,
{
    if engine_changes(input, opts).len() == 0 {
        lemma_no_changes_output_equals_input(input, opts);
    }
    if engine_output(input, opts) == input {
        lemma_idempotent_engine(input, opts);
    }
}

/// Law (one direction of the dry-run/apply consistency): a run that
/// reports no changes emits exactly its input, so applying the formatter
/// after a clean dry run leaves the file byte-for-byte intact.
pub proof fn lemma_no_changes_output_equals_input(input: Seq<u8>, opts: Options)
    requires
        engine_changes(input, opts).len() == 0,
    ensures
        engine_output(input, opts) == input,
{
    if input.len() == 0 || is_all_whitespace(input) {
    } else {
        let target = resolve_new_line_marker(opts.new_line_marker, input);
        let st = scan(input, opts, target, 0, initial_scan_state());
        lemma_finish_without_changes_copies(opts, target, st);
        lemma_scan_without_changes_copies(input, opts, target, 0, initial_scan_state());
        assert(Seq::<u8>::empty() + input.subrange(0, input.len() as int) =~= input);
    }
}

} // verus!
