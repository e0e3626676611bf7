//! The demo application's user-interface model and its input types.
use vstd::prelude::*;

verus! {

/// How the demo presents the scene.
#[derive(Clone, Copy, Debug, PartialEq, Eq, Structural)]
pub enum Mode {
    /// Flat, in a window.
    TwoD,
    /// In perspective, in a window.
    ThreeD,
    /// In a headset.
    VR,
}

/// The demo's start-up options that its user interface reads.
#[derive(Clone, Copy, Debug, PartialEq, Eq, Structural)]
pub struct Options {
    pub mode: Mode,
}

/// A key the demo reacts to.
#[derive(Clone, Copy, Debug, PartialEq, Eq, Structural)]
pub enum Keycode {
    Alphanumeric(u8),
    Escape,
}

/// A window event as the demo handles it; a resize carries the new size,
/// which the caller keeps.
#[derive(Clone, Copy, Debug, PartialEq, Eq, Structural)]
pub enum DemoEvent {
    Quit,
    WindowResized,
    User { message_type: u32, message_data: u32 },
}

/// What a batch of window events asks of the demo: to exit, to redraw, and
/// which resize (by index among the events) sets the window size.
#[derive(Clone, Copy, Debug, PartialEq, Eq, Structural)]
pub struct EventOutcome {
    pub should_exit: bool,
    pub dirty: bool,
    pub last_resize: Option<usize>,
}

/// Whether an event is the one that expires the current message.
pub open spec fn expires_message(event: DemoEvent, expire_message_event_id: u32, message_epoch: u32) -> bool {
    event matches DemoEvent::User { message_type, message_data } && message_type == expire_message_event_id
        && message_data == message_epoch
}

/// Whether an event changes what is shown.
pub open spec fn redraws(event: DemoEvent, expire_message_event_id: u32, message_epoch: u32) -> bool {
    ||| event is Quit
    ||| event is WindowResized
    ||| expires_message(event, expire_message_event_id, message_epoch)
}

/// The state of the demo's user interface: the presentation mode, which
/// effects are enabled, and the message shown to the user (none when
/// empty).
pub struct DemoUI {
    pub mode: Mode,
    pub dark_background_enabled: bool,
    pub gamma_correction_effect_enabled: bool,
    pub stem_darkening_effect_enabled: bool,
    pub subpixel_aa_effect_enabled: bool,
    pub message: String,
    pub show_text_effects: bool,
}

impl DemoUI {
    /// The interface at start-up: the mode the options ask for, a light
    /// background, every text effect enabled and shown, and no message.
    pub fn new(options: Options) -> (ui: DemoUI)
        ensures
            ui.mode == options.mode,
            !ui.dark_background_enabled,
            ui.gamma_correction_effect_enabled,
            ui.stem_darkening_effect_enabled,
            ui.subpixel_aa_effect_enabled,
            ui.message@ == Seq::<char>::empty(),
            ui.show_text_effects,
    {
        DemoUI {
            mode: options.mode,
            dark_background_enabled: false,
            gamma_correction_effect_enabled: true,
            stem_darkening_effect_enabled: true,
            subpixel_aa_effect_enabled: true,
            message: String::new(),
            show_text_effects: true,
        }
    }

    /// Handles a user event of the window: the event that expires the
    /// message, carrying the current message epoch, clears the message.
    /// Returns whether the interface changed (and must be redrawn); any
    /// other user event is ignored.
    pub fn expire_message(
        &mut self,
        message_type: u32,
        message_data: u32,
        expire_message_event_id: u32,
        message_epoch: u32,
    ) -> (dirty: bool)
        ensures
            dirty == (message_type == expire_message_event_id && message_data == message_epoch),
            dirty ==> final(self).message@ == Seq::<char>::empty(),
            !dirty ==> final(self).message@ == old(self).message@,
            final(self).mode == old(self).mode,
            final(self).dark_background_enabled == old(self).dark_background_enabled,
            final(self).gamma_correction_effect_enabled == old(self).gamma_correction_effect_enabled,
            final(self).stem_darkening_effect_enabled == old(self).stem_darkening_effect_enabled,
            final(self).subpixel_aa_effect_enabled == old(self).subpixel_aa_effect_enabled,
            final(self).show_text_effects == old(self).show_text_effects,
    {
        if message_type == expire_message_event_id && message_data == message_epoch {
            self.message = String::new();
            true
        } else {
            false
        }
    }
}

impl DemoUI {
    /// Handles a frame's window events in order: a quit asks to exit, a
    /// resize sets the window size (the last one wins), the event expiring
    /// the message clears it; each of these asks for a redraw, and any other
    /// event is ignored.
    pub fn handle_events(
        &mut self,
        events: &Vec<DemoEvent>,
        expire_message_event_id: u32,
        message_epoch: u32,
    ) -> (outcome: EventOutcome)
        ensures
            outcome.should_exit <==> exists|i: int| 0 <= i < events@.len() && #[trigger] events@[i] is Quit,
            outcome.dirty <==> exists|i: int|
                0 <= i < events@.len() && redraws(#[trigger] events@[i], expire_message_event_id, message_epoch),
            match outcome.last_resize {
                Some(i) => i < events@.len() && events@[i as int] is WindowResized && forall|j: int|
                    i < j < events@.len() ==> !(#[trigger] events@[j] is WindowResized),
                None => forall|j: int| 0 <= j < events@.len() ==> !(#[trigger] events@[j] is WindowResized),
            },
            (exists|i: int|
                0 <= i < events@.len() && expires_message(#[trigger] events@[i], expire_message_event_id, message_epoch))
                ==> final(self).message@ == Seq::<char>::empty(),
            !(exists|i: int|
                0 <= i < events@.len() && expires_message(#[trigger] events@[i], expire_message_event_id, message_epoch))
                ==> final(self).message@ == old(self).message@,
            final(self).mode == old(self).mode,
            final(self).dark_background_enabled == old(self).dark_background_enabled,
            final(self).gamma_correction_effect_enabled == old(self).gamma_correction_effect_enabled,
            final(self).stem_darkening_effect_enabled == old(self).stem_darkening_effect_enabled,
            final(self).subpixel_aa_effect_enabled == old(self).subpixel_aa_effect_enabled,
            final(self).show_text_effects == old(self).show_text_effects,
    {
        let mut outcome = EventOutcome { should_exit: false, dirty: false, last_resize: None };
        let mut expired = false;
        let mut i: usize = 0;
        while i < events.len()
            invariant
                i <= events@.len(),
                outcome.should_exit <==> exists|k: int| 0 <= k < i && #[trigger] events@[k] is Quit,
                outcome.dirty <==> exists|k: int|
                    0 <= k < i && redraws(#[trigger] events@[k], expire_message_event_id, message_epoch),
                match outcome.last_resize {
                    Some(r) => r < i && events@[r as int] is WindowResized && forall|j: int|
                        r < j < i ==> !(#[trigger] events@[j] is WindowResized),
                    None => forall|j: int| 0 <= j < i ==> !(#[trigger] events@[j] is WindowResized),
                },
                expired <==> exists|k: int|
                    0 <= k < i && expires_message(#[trigger] events@[k], expire_message_event_id, message_epoch),
                expired ==> self.message@ == Seq::<char>::empty(),
                !expired ==> self.message@ == old(self).message@,
                self.mode == old(self).mode,
                self.dark_background_enabled == old(self).dark_background_enabled,
                self.gamma_correction_effect_enabled == old(self).gamma_correction_effect_enabled,
                self.stem_darkening_effect_enabled == old(self).stem_darkening_effect_enabled,
                self.subpixel_aa_effect_enabled == old(self).subpixel_aa_effect_enabled,
                self.show_text_effects == old(self).show_text_effects,
            decreases events@.len() - i,
        {
            let event = events[i];
            match event {
                DemoEvent::Quit => {
                    outcome.should_exit = true;
                    outcome.dirty = true;
                },
                DemoEvent::WindowResized => {
                    outcome.last_resize = Some(i);
                    outcome.dirty = true;
                },
                DemoEvent::User { message_type, message_data } => {
                    if self.expire_message(message_type, message_data, expire_message_event_id, message_epoch) {
                        outcome.dirty = true;
                        expired = true;
                    }
                },
            }
            proof {
                assert(events@[i as int] == event);
            }
            i = i + 1;
        }
        outcome
    }
}

} // verus!
