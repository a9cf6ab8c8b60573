use vstd::prelude::*;

verus! {

/// What the control surface does to the player and to its own widgets after
/// a change of device selection or of the play toggle.
#[derive(Clone, Copy, Debug, PartialEq, Eq, Structural)]
pub struct UpdatePlan {
    /// Whether the play toggle is enabled afterwards.
    pub enable_toggle: bool,
    /// Tear down both bindings first.
    pub clear_player: bool,
    /// Put the play toggle back to unchecked.
    pub uncheck_toggle: bool,
    /// Input device to bind, by index.
    pub input: Option<usize>,
    /// Output device to bind once the input step is over, by index.
    pub output: Option<usize>,
}

/// What is left to do once the input binding has been tried.
#[derive(Clone, Copy, Debug, PartialEq, Eq, Structural)]
pub struct FollowUp {
    pub clear_player: bool,
    pub uncheck_toggle: bool,
    pub output: Option<usize>,
}

/// The plan for a selection `(selected_input, selected_output)`, a toggle
/// now `checked`, and the devices the caller asks to rebind, from the
/// playing state `playing`; paired with the playing state afterwards.
pub open spec fn plan_spec(
    playing: bool,
    selected_input: Option<usize>,
    selected_output: Option<usize>,
    checked: bool,
    update_input: bool,
    update_output: bool,
) -> (UpdatePlan, bool) {
    match (selected_input, selected_output) {
        (Some(i), Some(o)) => (
            UpdatePlan {
                enable_toggle: true,
                clear_player: !checked,
                uncheck_toggle: false,
                input: if checked && (!playing || update_input) { Some(i) } else { None },
                output: if checked && (!playing || update_output) { Some(o) } else { None },
            },
            checked,
        ),
        _ => (
            UpdatePlan {
                enable_toggle: false,
                clear_player: true,
                uncheck_toggle: true,
                input: None,
                output: None,
            },
            false,
        ),
    }
}

/// The follow-up of `plan` when binding its input succeeded (`input_ok`) or
/// failed; paired with the playing state afterwards.
pub open spec fn follow_up_spec(playing: bool, plan: UpdatePlan, input_ok: bool) -> (FollowUp, bool) {
    if plan.input is Some && !input_ok {
        (FollowUp { clear_player: true, uncheck_toggle: true, output: None }, false)
    } else {
        (FollowUp { clear_player: false, uncheck_toggle: false, output: plan.output }, playing)
    }
}

/// Whether the player is meant to be passing audio through, as the control
/// surface sees it.
pub struct PlaybackControl {
    playing: bool,
}

impl View for PlaybackControl {
    type V = bool;

    closed spec fn view(&self) -> bool {
        self.playing
    }
}

impl PlaybackControl {
    /// Starts stopped.
    pub fn new() -> (r: PlaybackControl)
        ensures
            r@ == false,
    {
        PlaybackControl { playing: false }
    }

    pub fn is_playing(&self) -> (r: bool)
        ensures
            r == self@,
    {
        self.playing
    }

    /// Plans the reaction to a change. Starting to play binds both devices;
    /// while playing only those asked for are rebound; unchecking the toggle
    /// clears the player; without both devices selected everything stops and
    /// the toggle is disabled.
    pub fn plan_update(
        &mut self,
        selected_input: Option<usize>,
        selected_output: Option<usize>,
        checked: bool,
        update_input: bool,
        update_output: bool,
    ) -> (r: UpdatePlan)
        ensures
            (r, final(self)@) == plan_spec(
                old(self)@,
                selected_input,
                selected_output,
                checked,
                update_input,
                update_output,
            ),
    {
        match (selected_input, selected_output) {
            (Some(i), Some(o)) => {
                let (bind_input, bind_output) = if !checked {
                    (false, false)
                } else if !self.playing {
                    (true, true)
                } else {
                    (update_input, update_output)
                };
                self.playing = checked;
                UpdatePlan {
                    enable_toggle: true,
                    clear_player: !checked,
                    uncheck_toggle: false,
                    input: if bind_input { Some(i) } else { None },
                    output: if bind_output { Some(o) } else { None },
                }
            },
            _ => {
                self.playing = false;
                UpdatePlan {
                    enable_toggle: false,
                    clear_player: true,
                    uncheck_toggle: true,
                    input: None,
                    output: None,
                }
            },
        }
    }

    /// Reacts to the outcome of binding the input that `plan` asked for. A
    /// failure stops playback: the player is cleared, the toggle unchecked,
    /// and the output is left alone.
    pub fn finish_input(&mut self, plan: &UpdatePlan, input_ok: bool) -> (r: FollowUp)
        ensures
            (r, final(self)@) == follow_up_spec(old(self)@, *plan, input_ok),
    {
        if plan.input.is_some() && !input_ok {
            self.playing = false;
            FollowUp { clear_player: true, uncheck_toggle: true, output: None }
        } else {
            FollowUp { clear_player: false, uncheck_toggle: false, output: plan.output }
        }
    }
}

/// The device index that a combo box reports as selected, or `None` when it
/// is negative (nothing selected) or past the end of the device list.
pub fn selection_from_index(index: i64, len: usize) -> (r: Option<usize>)
    ensures
        r == (if 0 <= index < len { Some(index as usize) } else { None::<usize> }),
{
    if index < 0 {
        None
    } else if (index as u64) < (len as u64) {
        Some(index as usize)
    } else {
        None
    }
}

/// The first position in `names` that holds `target`.
pub fn position_of_name(names: &Vec<String>, target: &String) -> (r: Option<usize>)
    ensures
        match r {
            Some(i) => i < names@.len() && names@[i as int]@ == target@ && forall|j: int|
                0 <= j < i ==> names@[j]@ != target@,
            None => forall|j: int| 0 <= j < names@.len() ==> names@[j]@ != target@,
        },
{
    let mut i: usize = 0;
    while i < names.len()
        invariant
            i <= names@.len(),
            forall|j: int| 0 <= j < i ==> names@[j]@ != target@,
        decreases names@.len() - i,
    {
        if names[i] == *target {
            return Some(i);
        }
        i = i + 1;
    }
    None
}

} // verus!
