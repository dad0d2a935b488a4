//! The displayable merge engine: normalize train predictions and custom
//! messages into display entries, drop expired messages, and stable-sort the
//! result by sort key.

use vstd::prelude::*;
use crate::entry::{Train, TrainModel, ArrivalMessage, MsgModel, SimpleArrivalDisplayable,
    EntryModel, spec_train_entry, spec_msg_entry, train_to_entry, message_to_entry,
    spec_loading_entry};
use crate::sort::{spec_sort, sort_entries};

verus! {

/// The body of the transit prediction API's response.
pub struct PredictionApiReturn {
    pub trains: Vec<Train>,
}

/// Whether a custom message is still alive at wall-clock time `now`:
/// sticky messages never expire, others last until their timestamp passes.
pub open spec fn spec_live(now: int) -> spec_fn(MsgModel) -> bool {
    |m: MsgModel| m.sticky || m.time >= now
}

/// The custom messages that survive the expiry filter, in order.
pub open spec fn spec_live_messages(msgs: Seq<MsgModel>, now: int) -> Seq<MsgModel> {
    msgs.filter(spec_live(now))
}

/// Normalization of a train prediction, as a function value.
pub open spec fn train_entry_fn(now: int) -> spec_fn(TrainModel) -> EntryModel {
    |t: TrainModel| spec_train_entry(t, now)
}

/// Normalization of a custom message, as a function value.
pub open spec fn msg_entry_fn(now: int) -> spec_fn(MsgModel) -> EntryModel {
    |m: MsgModel| spec_msg_entry(m, now)
}

/// Every displayable entry before sorting: the train predictions in API
/// order, then the live custom messages in their configured order.
pub open spec fn spec_displayables(trains: Seq<TrainModel>, msgs: Seq<MsgModel>, now: int) -> Seq<
    EntryModel,
> {
    trains.map_values(train_entry_fn(now)) + spec_live_messages(msgs, now).map_values(
        msg_entry_fn(now),
    )
}

/// The merged board: every displayable entry, stable-sorted by sort key.
pub open spec fn spec_merge(trains: Seq<TrainModel>, msgs: Seq<MsgModel>, now: int) -> Seq<
    EntryModel,
> {
    spec_sort(spec_displayables(trains, msgs, now))
}

/// Merge the API's train predictions with the configured custom messages at
/// wall-clock time `now` (milliseconds since the epoch): normalize both into
/// display entries, drop expired messages, and stable-sort by sort key.
pub fn convert_api_return_to_display(
    response: &PredictionApiReturn,
    extra_messages: &Option<Vec<ArrivalMessage>>,
    now: i64,
) -> (r: Vec<SimpleArrivalDisplayable>)
    ensures
        r.deep_view() == spec_merge(
            response.trains.deep_view(),
            match extra_messages {
                Some(msgs) => msgs.deep_view(),
                None => Seq::<MsgModel>::empty(),
            },
            now as int,
        ),
{
    let ghost trains_m: Seq<TrainModel> = response.trains.deep_view();
    let ghost msgs_m: Seq<MsgModel> = match extra_messages {
        Some(msgs) => msgs.deep_view(),
        None => Seq::<MsgModel>::empty(),
    };
    let mut entries: Vec<SimpleArrivalDisplayable> = Vec::new();
    let mut i: usize = 0;
    while i < response.trains.len()
        invariant
            i <= response.trains.len(),
            trains_m == response.trains.deep_view(),
            entries.deep_view() == trains_m.subrange(0, i as int).map_values(
                train_entry_fn(now as int),
            ),
        decreases response.trains.len() - i,
    {
        let e = train_to_entry(&response.trains[i], now);
        let ghost pre = entries.deep_view();
        entries.push(e);
        proof {
            assert(e@ == train_entry_fn(now as int)(trains_m[i as int]));
            assert(entries.deep_view() =~= pre.push(e@));
            assert(pre.push(e@) =~= trains_m.subrange(0, i + 1 as int).map_values(
                train_entry_fn(now as int),
            ));
        }
        i = i + 1;
    }
    proof {
        assert(trains_m.subrange(0, trains_m.len() as int) =~= trains_m);
    }
    match extra_messages {
        Some(msgs) => {
            let mut j: usize = 0;
            while j < msgs.len()
                invariant
                    j <= msgs.len(),
                    msgs_m == msgs.deep_view(),
                    entries.deep_view() == trains_m.map_values(train_entry_fn(now as int))
                        + spec_live_messages(msgs_m.subrange(0, j as int), now as int).map_values(
                        msg_entry_fn(now as int),
                    ),
                decreases msgs.len() - j,
            {
                let m = &msgs[j];
                proof {
                    assert(msgs_m.subrange(0, j + 1 as int).drop_last() =~= msgs_m.subrange(
                        0,
                        j as int,
                    ));
                    assert(msgs_m.subrange(0, j + 1 as int).last() == msgs_m[j as int]);
                    assert(m@ == msgs_m[j as int]);
                    assert(spec_live(now as int)(msgs_m[j as int]) == (msgs_m[j as int].sticky
                        || msgs_m[j as int].time >= now as int));
                }
                if m.sticky || m.time >= now {
                    let e = message_to_entry(m, now);
                    let ghost pre = entries.deep_view();
                    entries.push(e);
                    proof {
                        reveal_with_fuel(Seq::<_>::filter, 2);
                        let ext = msgs_m.subrange(0, j + 1 as int);
                        let cur = msgs_m.subrange(0, j as int);
                        let live_now = spec_live_messages(ext, now as int);
                        let live_pre = spec_live_messages(cur, now as int);
                        assert(e@ == msg_entry_fn(now as int)(msgs_m[j as int]));
                        assert(spec_live(now as int)(ext.last()));
                        assert(live_now == ext.drop_last().filter(spec_live(now as int)).push(
                            ext.last(),
                        ));
                        assert(live_now == live_pre.push(msgs_m[j as int]));
                        assert(live_now.map_values(msg_entry_fn(now as int)) =~= live_pre.map_values(
                            msg_entry_fn(now as int),
                        ).push(spec_msg_entry(msgs_m[j as int], now as int)));
                        assert(entries.deep_view() =~= pre.push(e@));
                        assert(pre.push(e@) =~= trains_m.map_values(train_entry_fn(now as int))
                            + live_now.map_values(msg_entry_fn(now as int)));
                    }
                } else {
                    proof {
                        reveal_with_fuel(Seq::<_>::filter, 2);
                        let ext = msgs_m.subrange(0, j + 1 as int);
                        assert(!spec_live(now as int)(ext.last()));
                        assert(spec_live_messages(ext, now as int) == ext.drop_last().filter(
                            spec_live(now as int),
                        ));
                        assert(spec_live_messages(ext, now as int) == spec_live_messages(
                            msgs_m.subrange(0, j as int),
                            now as int,
                        ));
                    }
                }
                j = j + 1;
            }
            proof {
                assert(msgs_m.subrange(0, msgs_m.len() as int) =~= msgs_m);
            }
        },
        None => {
            proof {
                reveal_with_fuel(Seq::<_>::filter, 2);
                assert(spec_live_messages(msgs_m, now as int).map_values(msg_entry_fn(now as int))
                    =~= Seq::<EntryModel>::empty());
                assert(entries.deep_view() =~= spec_displayables(trains_m, msgs_m, now as int));
            }
        },
    }
    proof {
        assert(entries.deep_view() =~= spec_displayables(trains_m, msgs_m, now as int));
    }
    sort_entries(&entries)
}

/// Relies on `chrono::Utc::now`: the wall clock, read as milliseconds since
/// the Unix epoch. Nothing can be promised of its value.
#[verifier::external_body]
fn now_millis() -> i64 {
    chrono::Utc::now().timestamp_millis()
}

/// The snapshot the arrival producer publishes: the merged board and the
/// wall-clock time it was built at.
pub struct ArrivalState {
    pub messages: Vec<SimpleArrivalDisplayable>,
    pub last_update: i64,
}

impl Clone for ArrivalState {
    fn clone(&self) -> (r: Self)
        ensures
            r.messages@ == self.messages@,
            r.last_update == self.last_update,
    {
        let messages = self.messages.clone();
        proof {
            assert forall|i: int| 0 <= i < self.messages@.len() implies messages@[i]
                == self.messages@[i] by {
                assert(cloned(self.messages[i], messages[i]));
            }
            assert(messages@ =~= self.messages@);
        }
        ArrivalState { messages, last_update: self.last_update }
    }
}

/// One poll step of the arrival producer: merge the fetched predictions with
/// the configured custom messages at the current wall-clock time, and stamp
/// the snapshot with that time.
pub fn build_arrival_state(
    response: &PredictionApiReturn,
    extra_messages: &Option<Vec<ArrivalMessage>>,
) -> (r: ArrivalState)
    ensures
        r.messages.deep_view() == spec_merge(
            response.trains.deep_view(),
            match extra_messages {
                Some(msgs) => msgs.deep_view(),
                None => Seq::<MsgModel>::empty(),
            },
            r.last_update as int,
        ),
{
    let now = now_millis();
    let messages = convert_api_return_to_display(response, extra_messages, now);
    ArrivalState { messages, last_update: now }
}

/// The state published before the first successful fetch: a single
/// synthetic loading entry, so the board never starts empty.
pub fn initial_arrival_state() -> (r: ArrivalState)
    ensures
        r.messages.deep_view() == seq![spec_loading_entry(r.last_update as int)],
{
    let now = now_millis();
    let mut messages: Vec<SimpleArrivalDisplayable> = Vec::new();
    messages.push(SimpleArrivalDisplayable::loading(now));
    proof {
        assert(messages.deep_view() =~= seq![spec_loading_entry(now as int)]);
    }
    ArrivalState { messages, last_update: now }
}

} // verus!
