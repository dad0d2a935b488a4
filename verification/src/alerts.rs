//! The alert announcement state machine: which states one announcement
//! cycle publishes, and in what order. The surrounding application performs
//! the sleeps between states and sends each state into its channel.

use vstd::prelude::*;
use vstd::string::StringExecFns;
use crate::rng::random_in_range;

verus! {

/// The phase of the alert announcement cycle. Whenever it is not `Hidden`,
/// the alert view replaces the arrival board.
#[derive(Clone, Copy, Debug, PartialEq, Eq, Structural)]
pub enum AlertMode {
    IntroA,
    IntroB,
    MessageA,
    MessageB,
    Hidden,
}

/// What the alert producer publishes: the phase, the alert text being
/// announced, and how far the message view has scrolled.
#[derive(Debug)]
pub struct AlertState {
    pub mode: AlertMode,
    pub currently_shown_message: String,
    pub scroll_index: u32,
}

/// The mathematical model of an alert state.
#[verifier::ext_equal]
pub struct AlertStateModel {
    pub mode: AlertMode,
    pub message: Seq<char>,
    pub scroll: int,
}

impl View for AlertState {
    type V = AlertStateModel;

    open spec fn view(&self) -> AlertStateModel {
        AlertStateModel {
            mode: self.mode,
            message: self.currently_shown_message@,
            scroll: self.scroll_index as int,
        }
    }
}

impl DeepView for AlertState {
    type V = AlertStateModel;

    open spec fn deep_view(&self) -> AlertStateModel {
        self.view()
    }
}

impl Clone for AlertState {
    fn clone(&self) -> (r: Self)
        ensures
            r == *self,
    {
        AlertState {
            mode: self.mode,
            currently_shown_message: self.currently_shown_message.clone(),
            scroll_index: self.scroll_index,
        }
    }
}

/// An alert state as a model value.
pub open spec fn spec_alert_state(mode: AlertMode, message: Seq<char>, scroll: int) -> AlertStateModel {
    AlertStateModel { mode, message, scroll }
}

/// The hidden state: no alert shown.
pub open spec fn spec_blank() -> AlertStateModel {
    spec_alert_state(AlertMode::Hidden, Seq::<char>::empty(), 0)
}

impl AlertState {
    /// The hidden state, published whenever no announcement is running.
    pub fn blank() -> (r: Self)
        ensures
            r@ == spec_blank(),
    {
        let r = AlertState {
            mode: AlertMode::Hidden,
            currently_shown_message: String::new(),
            scroll_index: 0,
        };
        proof {
            assert(r@ =~= spec_blank());
        }
        r
    }
}

/// The states one announcement cycle publishes for alert text `msg`: the
/// intro alternation shown twice, then the two message phases across three
/// scroll passes of four positions each, then hidden.
pub open spec fn spec_alert_cycle(msg: Seq<char>) -> Seq<AlertStateModel> {
    seq![
        spec_alert_state(AlertMode::IntroA, msg, 0),
        spec_alert_state(AlertMode::IntroB, msg, 0),
        spec_alert_state(AlertMode::IntroA, msg, 0),
        spec_alert_state(AlertMode::IntroB, msg, 0),
        spec_alert_state(AlertMode::MessageA, msg, 0),
        spec_alert_state(AlertMode::MessageB, msg, 1),
        spec_alert_state(AlertMode::MessageA, msg, 4),
        spec_alert_state(AlertMode::MessageB, msg, 5),
        spec_alert_state(AlertMode::MessageA, msg, 8),
        spec_alert_state(AlertMode::MessageB, msg, 9),
        spec_blank(),
    ]
}

fn state_for(mode: AlertMode, msg: &str, scroll: u32) -> (r: AlertState)
    ensures
        r@ == spec_alert_state(mode, msg@, scroll as int),
{
    let r = AlertState {
        mode,
        currently_shown_message: String::from_str(msg),
        scroll_index: scroll,
    };
    proof {
        assert(r@ =~= spec_alert_state(mode, msg@, scroll as int));
    }
    r
}

/// The publish sequence of one announcement cycle for alert text `msg`.
pub fn alert_cycle_states(msg: &str) -> (r: Vec<AlertState>)
    ensures
        r.deep_view() == spec_alert_cycle(msg@),
{
    let mut r: Vec<AlertState> = Vec::new();
    r.push(state_for(AlertMode::IntroA, msg, 0));
    r.push(state_for(AlertMode::IntroB, msg, 0));
    r.push(state_for(AlertMode::IntroA, msg, 0));
    r.push(state_for(AlertMode::IntroB, msg, 0));
    r.push(state_for(AlertMode::MessageA, msg, 0));
    r.push(state_for(AlertMode::MessageB, msg, 1));
    r.push(state_for(AlertMode::MessageA, msg, 4));
    r.push(state_for(AlertMode::MessageB, msg, 5));
    r.push(state_for(AlertMode::MessageA, msg, 8));
    r.push(state_for(AlertMode::MessageB, msg, 9));
    r.push(AlertState::blank());
    proof {
        assert(r.deep_view() =~= spec_alert_cycle(msg@));
    }
    r
}

/// Plan one cycle of the alert producer: pick one alert at random when any
/// exist and announce it (ending hidden); publish only the hidden state when
/// none do. Also draw the pause, in seconds, before the next cycle begins.
pub fn plan_alert_cycle(alerts: &Vec<String>) -> (r: (Vec<AlertState>, u64))
    ensures
        alerts@.len() == 0 ==> r.0.deep_view() == seq![spec_blank()],
        alerts@.len() > 0 ==> exists|p: int|
            0 <= p < alerts@.len() && r.0.deep_view() == spec_alert_cycle(alerts@[p]@),
        60 <= r.1 < 300,
{
    let pause = random_in_range(60, 300);
    if alerts.len() == 0 {
        let mut states: Vec<AlertState> = Vec::new();
        states.push(AlertState::blank());
        proof {
            assert(states.deep_view() =~= seq![spec_blank()]);
        }
        (states, pause)
    } else {
        let p64 = random_in_range(0, alerts.len() as u64);
        let p = p64 as usize;
        let states = alert_cycle_states(alerts[p].as_str());
        proof {
            assert(0 <= p < alerts@.len() && states.deep_view() == spec_alert_cycle(
                alerts@[p as int]@,
            ));
        }
        (states, pause)
    }
}

/// The shape of one announcement cycle: it opens with the intro alternation,
/// alternates the two message phases while the scroll advances, ends hidden,
/// and shows the hidden phase nowhere else; every visible state carries the
/// announced text.
pub proof fn lemma_alert_cycle_shape(msg: Seq<char>)
    ensures
        spec_alert_cycle(msg).len() == 11,
        spec_alert_cycle(msg)[0].mode == AlertMode::IntroA,
        spec_alert_cycle(msg)[1].mode == AlertMode::IntroB,
        spec_alert_cycle(msg)[2].mode == AlertMode::IntroA,
        spec_alert_cycle(msg)[3].mode == AlertMode::IntroB,
        forall|i: int|
            4 <= i <= 9 ==> (#[trigger] spec_alert_cycle(msg)[i].mode == (if i % 2 == 0 {
                AlertMode::MessageA
            } else {
                AlertMode::MessageB
            })),
        spec_alert_cycle(msg)[10] == spec_blank(),
        forall|i: int| 0 <= i < 10 ==> (#[trigger] spec_alert_cycle(msg)[i].mode)
            != AlertMode::Hidden,
        forall|i: int| 0 <= i < 10 ==> (#[trigger] spec_alert_cycle(msg)[i].message) == msg,
{
}

} // verus!
