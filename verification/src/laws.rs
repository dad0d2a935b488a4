//! The laws the merge engine obeys, stated and proved over the engine's own
//! specification functions.

use vstd::prelude::*;
use crate::entry::{TrainModel, MsgModel, EntryModel, spec_train_entry, spec_msg_entry,
    spec_train_sort_key};
use crate::merge::{spec_merge, spec_displayables, spec_live_messages, spec_live, train_entry_fn,
    msg_entry_fn};
use crate::sort::{entries_sorted, keyed, lemma_sort_entries, lemma_sort_membership};
use crate::text::{spec_parse_i64, spec_is_digit};

verus! {

/// The merged board is sorted ascending by sort key, and sorting is stable:
/// for every key, the board carries exactly the displayable entries with
/// that key, in the order the inputs gave them (train predictions first,
/// then live custom messages).
pub proof fn lemma_merge_sorted_stable(trains: Seq<TrainModel>, msgs: Seq<MsgModel>, now: int)
    ensures
        entries_sorted(spec_merge(trains, msgs, now)),
        spec_merge(trains, msgs, now).len() == spec_displayables(trains, msgs, now).len(),
        forall|k: int|
            keyed(spec_merge(trains, msgs, now), k) == keyed(
                spec_displayables(trains, msgs, now),
                k,
            ),
{
    lemma_sort_entries(spec_displayables(trains, msgs, now));
}

/// Merging is a function of its inputs alone: two merges of the same
/// predictions, messages and wall-clock time give identical boards.
pub proof fn lemma_merge_deterministic(
    trains: Seq<TrainModel>,
    msgs: Seq<MsgModel>,
    now: int,
    r1: Seq<EntryModel>,
    r2: Seq<EntryModel>,
)
    requires
        r1 == spec_merge(trains, msgs, now),
        r2 == spec_merge(trains, msgs, now),
    ensures
        r1 == r2,
{
}

/// A non-sticky custom message whose timestamp has passed is excluded from
/// the live messages, whatever the rest of the configuration holds.
pub proof fn lemma_expired_message_excluded(msgs: Seq<MsgModel>, now: int, m: MsgModel)
    requires
        !m.sticky,
        m.time < now,
    ensures
        !spec_live_messages(msgs, now).contains(m),
{
    if spec_live_messages(msgs, now).contains(m) {
        let live = spec_live_messages(msgs, now);
        let i = choose|i: int| 0 <= i < live.len() && live[i] == m;
        msgs.lemma_filter_pred(spec_live(now), i);
        assert(spec_live(now)(m) == (m.sticky || m.time >= now));
        assert(false);
    }
}

/// A sticky custom message is always among the live messages, whatever its
/// timestamp.
pub proof fn lemma_sticky_message_included(msgs: Seq<MsgModel>, now: int, j: int)
    requires
        0 <= j < msgs.len(),
        msgs[j].sticky,
    ensures
        spec_live_messages(msgs, now).contains(msgs[j]),
{
    assert(spec_live(now)(msgs[j]) == (msgs[j].sticky || msgs[j].time >= now));
    msgs.lemma_filter_contains(spec_live(now), j);
}

/// A sticky custom message's entry always stands somewhere on the merged
/// board, whatever its timestamp and whatever else is merged.
pub proof fn lemma_sticky_message_on_board(
    trains: Seq<TrainModel>,
    msgs: Seq<MsgModel>,
    now: int,
    j: int,
)
    requires
        0 <= j < msgs.len(),
        msgs[j].sticky,
    ensures
        spec_merge(trains, msgs, now).contains(spec_msg_entry(msgs[j], now)),
{
    broadcast use vstd::seq_lib::lemma_seq_concat_contains_all_elements;

    lemma_sticky_message_included(msgs, now, j);
    let live = spec_live_messages(msgs, now);
    let li = choose|li: int| 0 <= li < live.len() && live[li] == msgs[j];
    let disp = spec_displayables(trains, msgs, now);
    let tpart = trains.map_values(train_entry_fn(now));
    let mpart = live.map_values(msg_entry_fn(now));
    assert(mpart[li] == msg_entry_fn(now)(live[li]));
    assert(mpart.contains(spec_msg_entry(msgs[j], now)));
    assert(disp == tpart + mpart);
    lemma_sort_membership(disp);
}

/// How the ETA classes order themselves on the board: a boarding train
/// ("BRD") sorts before an arriving one ("ARR"), an arriving one before any
/// numeric ETA of less than a day, and such a numeric ETA before any
/// unrecognized ETA text.
pub proof fn lemma_eta_class_ordering(now: int, num: Seq<char>, other: Seq<char>)
    requires
        spec_parse_i64(num) matches Some(v) && 0 <= v < 1440,
        spec_parse_i64(other) is None,
        other != "ARR"@,
        other != "BRD"@,
    ensures
        spec_train_sort_key("BRD"@, now) < spec_train_sort_key("ARR"@, now),
        spec_train_sort_key("ARR"@, now) < spec_train_sort_key(num, now),
        spec_train_sort_key(num, now) < spec_train_sort_key(other, now),
{
    reveal_strlit("ARR");
    reveal_strlit("BRD");
    assert(!spec_is_digit("ARR"@[0]));
    assert(spec_parse_i64("ARR"@) is None);
    assert(!spec_is_digit("BRD"@[0]));
    assert(spec_parse_i64("BRD"@) is None);
    assert("ARR"@ != "BRD"@) by {
        assert("ARR"@[0] != "BRD"@[0]);
    }
    let v = spec_parse_i64(num)->Some_0;
    assert(0 <= 60000 * v < 86400000) by (nonlinear_arith)
        requires
            0 <= v < 1440,
    ;
    assert(spec_train_sort_key(num, now) == now + 60000 * v);
}

/// On a board merged after the clock has passed two minutes into the epoch,
/// from predictions whose numeric ETAs are non-negative, every sticky entry
/// (sort key zero) stands before every non-sticky entry (sort key positive).
pub proof fn lemma_sticky_sorts_first(
    trains: Seq<TrainModel>,
    msgs: Seq<MsgModel>,
    now: int,
    i: int,
    j: int,
)
    requires
        now > 120000,
        forall|ti: int|
            0 <= ti < trains.len() ==> (spec_parse_i64(#[trigger] trains[ti].min) matches Some(v)
                ==> v >= 0),
        0 <= i < spec_merge(trains, msgs, now).len(),
        0 <= j < spec_merge(trains, msgs, now).len(),
        spec_merge(trains, msgs, now)[i].sticky,
        !spec_merge(trains, msgs, now)[j].sticky,
    ensures
        i < j,
        spec_merge(trains, msgs, now)[i].sort_key == 0,
        spec_merge(trains, msgs, now)[j].sort_key > 0,
{
    broadcast use vstd::seq_lib::lemma_seq_concat_contains_all_elements;

    let merged = spec_merge(trains, msgs, now);
    let disp = spec_displayables(trains, msgs, now);
    let tpart = trains.map_values(train_entry_fn(now));
    let live = spec_live_messages(msgs, now);
    let mpart = live.map_values(msg_entry_fn(now));
    lemma_sort_membership(disp);
    lemma_sort_entries(disp);
    assert forall|idx: int| 0 <= idx < disp.len() implies ((#[trigger] disp[idx].sticky
        ==> disp[idx].sort_key == 0) && (!disp[idx].sticky ==> disp[idx].sort_key > 0)) by {
        if idx < tpart.len() {
            let t = trains[idx];
            assert(disp[idx] == train_entry_fn(now)(t));
            assert(disp[idx] == spec_train_entry(t, now));
            match spec_parse_i64(t.min) {
                Some(v) => {
                    assert(v >= 0);
                    assert(spec_train_sort_key(t.min, now) == now + 60000 * v);
                    assert(60000 * v >= 0) by (nonlinear_arith)
                        requires
                            v >= 0,
                    ;
                },
                None => {},
            }
        } else {
            let mi = idx - tpart.len();
            let m = live[mi];
            assert(disp[idx] == mpart[mi]);
            assert(mpart[mi] == msg_entry_fn(now)(m));
            assert(disp[idx] == spec_msg_entry(m, now));
            assert(live == msgs.filter(spec_live(now)));
            msgs.lemma_filter_pred(spec_live(now), mi);
            assert(spec_live(now)(m) == (m.sticky || m.time >= now));
        }
    }
    let ei = merged[i];
    let ej = merged[j];
    assert(merged.contains(ei) && merged.contains(ej));
    assert(disp.contains(ei) && disp.contains(ej));
    let ii = choose|ii: int| 0 <= ii < disp.len() && disp[ii] == ei;
    let jj = choose|jj: int| 0 <= jj < disp.len() && disp[jj] == ej;
    assert(ei.sort_key == 0);
    assert(ej.sort_key > 0);
    if j < i {
        assert(merged[j].sort_key <= merged[i].sort_key);
        assert(false);
    }
    if i == j {
        assert(false);
    }
}

} // verus!
