//! Keyboard front end of the text-input protocol.
//!
//! Every key event is forwarded to the engine's low-level key channel,
//! whatever the editing state.  On top of that, when a remote input client is
//! attached and the selection is valid, a pressed key may edit the client's
//! buffer; the final state is then reported back in a single
//! `UpdateEditingState` message.  A key whose physical or logical code the
//! platform tables could not translate is dropped whole.
//!
//! The caller hands in already-translated plain values: the key codes, the
//! produced text as codepoints, and the engine clock's timestamp.

use vstd::prelude::*;

verus! {

use crate::clipboard::{clipboard_get, clipboard_new, clipboard_set};
use crate::text_edit::{
    backspace_spec, delete_spec, insert_spec, move_end_spec, move_home_spec, move_left_spec,
    move_right_spec, sel_editable, sel_end, sel_start, select_all_spec, selection_spec, text_fits,
    EditModel, EditingState,
};

/// The action a remote client asks for when the user submits its field.
#[derive(Clone, Copy, PartialEq, Eq, Structural, Debug)]
pub enum TextInputAction {
    Unspecified,
    Done,
    Go,
    Search,
    Send,
    Next,
    Previous,
    NewLine,
}

/// Navigation and editing keys the state machine understands.
#[derive(Clone, Copy, PartialEq, Eq, Structural, Debug)]
pub enum NamedEditKey {
    ArrowLeft,
    ArrowRight,
    ArrowUp,
    ArrowDown,
    Home,
    End,
    Backspace,
    Delete,
    Enter,
    Tab,
}

/// A platform key, reduced to what the editing rules read.
pub enum LogicalKey {
    /// One of the keys with an editing rule of its own.
    Named(NamedEditKey),
    /// Any other named key; only the text it produces matters.
    OtherNamed,
    /// A character key, as the codepoints it stands for.
    Character(Vec<char>),
    /// A key the platform could not identify.
    Unidentified,
    /// A dead key awaiting composition.
    Dead,
}

/// Model of `LogicalKey`.
pub enum KeyModel {
    Named(NamedEditKey),
    OtherNamed,
    Character(Seq<char>),
    Unidentified,
    Dead,
}

impl View for LogicalKey {
    type V = KeyModel;

    open spec fn view(&self) -> KeyModel {
        match self {
            LogicalKey::Named(k) => KeyModel::Named(*k),
            LogicalKey::OtherNamed => KeyModel::OtherNamed,
            LogicalKey::Character(c) => KeyModel::Character(c@),
            LogicalKey::Unidentified => KeyModel::Unidentified,
            LogicalKey::Dead => KeyModel::Dead,
        }
    }
}

/// How a raw key event is typed on the engine's key channel.
#[derive(Clone, Copy, PartialEq, Eq, Structural, Debug)]
pub enum KeyEventKind {
    Down,
    Up,
    Repeat,
}

/// One translated key event, as the caller hands it in.
pub struct KeyInput {
    /// Pressed or released.
    pub pressed: bool,
    /// A repeat of a held key (only meaningful when pressed).
    pub repeat: bool,
    /// Synthesized by the windowing system rather than typed.
    pub synthesized: bool,
    /// Translated physical (HID usage) code; `None` when untranslatable.
    pub physical: Option<u64>,
    /// Translated logical code; `None` when untranslatable.
    pub logical_code: Option<u64>,
    /// The key as the editing rules see it.
    pub key: LogicalKey,
    /// The text this key stroke produces, if any.
    pub text: Option<Vec<char>>,
    /// Engine clock reading for this event.
    pub timestamp: u64,
}

/// Model of `KeyInput`.
pub struct KeyInputModel {
    pub pressed: bool,
    pub repeat: bool,
    pub synthesized: bool,
    pub physical: Option<u64>,
    pub logical_code: Option<u64>,
    pub key: KeyModel,
    pub text: Option<Seq<char>>,
    pub timestamp: u64,
}

impl View for KeyInput {
    type V = KeyInputModel;

    open spec fn view(&self) -> KeyInputModel {
        KeyInputModel {
            pressed: self.pressed,
            repeat: self.repeat,
            synthesized: self.synthesized,
            physical: self.physical,
            logical_code: self.logical_code,
            key: self.key@,
            text: match self.text {
                Some(t) => Some(t@),
                None => None,
            },
            timestamp: self.timestamp,
        }
    }
}

/// A key event forwarded verbatim to the engine's key channel.
#[derive(Debug)]
pub struct RawKeyEvent {
    pub timestamp: u64,
    pub kind: KeyEventKind,
    pub physical: u64,
    pub logical: u64,
    /// The produced text; absent on release.
    pub character: Option<Vec<char>>,
    pub synthesized: bool,
}

/// Model of `RawKeyEvent`.
pub struct RawKeyModel {
    pub timestamp: u64,
    pub kind: KeyEventKind,
    pub physical: u64,
    pub logical: u64,
    pub character: Option<Seq<char>>,
    pub synthesized: bool,
}

impl View for RawKeyEvent {
    type V = RawKeyModel;

    open spec fn view(&self) -> RawKeyModel {
        RawKeyModel {
            timestamp: self.timestamp,
            kind: self.kind,
            physical: self.physical,
            logical: self.logical,
            character: match self.character {
                Some(c) => Some(c@),
                None => None,
            },
            synthesized: self.synthesized,
        }
    }
}

/// A message owed to the engine as a result of one key event.
pub enum Outbound {
    /// For the low-level key channel.
    RawKey(RawKeyEvent),
    /// The attached client's state after an edit, on the text-input channel.
    UpdateEditing { client: u64, state: EditingState },
    /// An action the attached client must perform, on the text-input channel.
    Action { client: u64, action: TextInputAction },
}

/// Model of `Outbound`.
pub enum OutboundModel {
    RawKey(RawKeyModel),
    UpdateEditing { client: u64, state: EditModel },
    Action { client: u64, action: TextInputAction },
}

impl View for Outbound {
    type V = OutboundModel;

    open spec fn view(&self) -> OutboundModel {
        match self {
            Outbound::RawKey(e) => OutboundModel::RawKey(e@),
            Outbound::UpdateEditing { client, state } => OutboundModel::UpdateEditing {
                client: *client,
                state: state@,
            },
            Outbound::Action { client, action } => OutboundModel::Action {
                client: *client,
                action: *action,
            },
        }
    }
}

/// What one key event came to.
pub enum KeyOutcome {
    /// The key failed translation; nothing was sent and nothing changed.
    Dropped,
    /// The messages owed to the engine, the raw key event first.
    Delivered(Vec<Outbound>),
}

/// An inbound message of the text-input channel, already decoded.
pub enum TextInput {
    SetClient(u64, TextInputAction),
    ClearClient,
    SetEditingState(EditingState),
    /// Any method this core does not handle; ignored after a warning outside.
    Unsupported,
}

/// Model of the keyboard state machine; the clipboard handle stays outside
/// the model, being platform state.
pub struct KbModel {
    pub client: Option<u64>,
    pub input_action: TextInputAction,
    pub shift: bool,
    pub action_mod: bool,
    pub editing: EditModel,
}

pub open spec fn kb_with_editing(m: KbModel, ed: EditModel) -> KbModel {
    KbModel {
        client: m.client,
        input_action: m.input_action,
        shift: m.shift,
        action_mod: m.action_mod,
        editing: ed,
    }
}

pub open spec fn initial_kb() -> KbModel {
    KbModel {
        client: None,
        input_action: TextInputAction::Unspecified,
        shift: false,
        action_mod: false,
        editing: EditModel { text: Seq::empty(), base: None, extent: None },
    }
}

/// A pressed key may edit the buffer only when a client is attached, both
/// selection endpoints are present and non-negative, and the buffer length
/// fits the wire type.
pub open spec fn edit_guard(m: KbModel) -> bool {
    &&& m.client is Some
    &&& sel_editable(m.editing)
    &&& text_fits(m.editing)
}

/// The raw key event owed for an input that passed translation.
pub open spec fn raw_key_model(i: KeyInputModel) -> RawKeyModel {
    RawKeyModel {
        timestamp: i.timestamp,
        kind: if !i.pressed {
            KeyEventKind::Up
        } else if i.repeat {
            KeyEventKind::Repeat
        } else {
            KeyEventKind::Down
        },
        physical: i.physical->0,
        logical: i.logical_code->0,
        character: if i.pressed {
            i.text
        } else {
            None
        },
        synthesized: i.synthesized,
    }
}

/// This input asks for a clipboard paste.
pub open spec fn is_paste(i: KeyInputModel, action_mod: bool) -> bool {
    action_mod && (i.key matches KeyModel::Character(c) && c == seq!['v'])
}

/// Result of applying one pressed key to the editing state.
pub struct EditStep {
    /// The state after the key.
    pub state: EditModel,
    /// An action the client is asked to perform, if the key was one.
    pub action: Option<TextInputAction>,
    /// Text owed to the system clipboard (cut and copy).
    pub clip_out: Option<Seq<char>>,
}

pub open spec fn step_state(ed: EditModel) -> EditStep {
    EditStep { state: ed, action: None, clip_out: None }
}

/// The declarative editing table: what one pressed key does to the buffer,
/// which client action it triggers, and what it places on the clipboard.
/// `clip` is whatever the system clipboard handed back for a paste.
pub open spec fn apply_key_spec(
    ed: EditModel,
    key: KeyModel,
    text: Option<Seq<char>>,
    shift: bool,
    action_mod: bool,
    input_action: TextInputAction,
    clip: Option<Seq<char>>,
) -> EditStep {
    match key {
        KeyModel::Named(k) => match k {
            NamedEditKey::ArrowLeft => step_state(move_left_spec(ed, shift)),
            NamedEditKey::ArrowRight => step_state(move_right_spec(ed, shift)),
            NamedEditKey::ArrowUp => step_state(move_home_spec(ed, shift)),
            NamedEditKey::Home => step_state(move_home_spec(ed, shift)),
            NamedEditKey::ArrowDown => step_state(move_end_spec(ed, shift)),
            NamedEditKey::End => step_state(move_end_spec(ed, shift)),
            NamedEditKey::Backspace => step_state(backspace_spec(ed)),
            NamedEditKey::Delete => step_state(delete_spec(ed)),
            NamedEditKey::Enter => EditStep {
                state: ed,
                action: Some(input_action),
                clip_out: None,
            },
            NamedEditKey::Tab => EditStep {
                state: ed,
                action: Some(
                    if shift {
                        TextInputAction::Previous
                    } else {
                        TextInputAction::Next
                    },
                ),
                clip_out: None,
            },
        },
        KeyModel::OtherNamed => match text {
            Some(t) => step_state(insert_spec(ed, t)),
            None => step_state(ed),
        },
        KeyModel::Character(c) => {
            if action_mod && c == seq!['a'] {
                step_state(select_all_spec(ed))
            } else if action_mod && c == seq!['x'] {
                if sel_start(ed) != sel_end(ed) {
                    EditStep {
                        state: backspace_spec(ed),
                        action: None,
                        clip_out: Some(selection_spec(ed)),
                    }
                } else {
                    step_state(ed)
                }
            } else if action_mod && c == seq!['c'] {
                if sel_start(ed) != sel_end(ed) {
                    EditStep { state: ed, action: None, clip_out: Some(selection_spec(ed)) }
                } else {
                    step_state(ed)
                }
            } else if action_mod && c == seq!['v'] {
                match clip {
                    Some(t) => if t.len() > 0 {
                        step_state(insert_spec(ed, t))
                    } else {
                        step_state(ed)
                    },
                    None => step_state(ed),
                }
            } else {
                step_state(insert_spec(ed, c))
            }
        },
        KeyModel::Unidentified => step_state(ed),
        KeyModel::Dead => step_state(ed),
    }
}

/// The messages a delivered, buffer-editing key owes: the raw event, then
/// the requested client action if any, then the final state.
pub open spec fn edit_effects_match(
    effs: Seq<OutboundModel>,
    raw: RawKeyModel,
    client: u64,
    st: EditStep,
) -> bool {
    match st.action {
        Some(a) => {
            &&& effs.len() == 3
            &&& effs[0] == OutboundModel::RawKey(raw)
            &&& effs[1] == OutboundModel::Action { client, action: a }
            &&& effs[2] == OutboundModel::UpdateEditing { client, state: st.state }
        },
        None => {
            &&& effs.len() == 2
            &&& effs[0] == OutboundModel::RawKey(raw)
            &&& effs[1] == OutboundModel::UpdateEditing { client, state: st.state }
        },
    }
}

pub open spec fn outbound_views(effs: Seq<Outbound>) -> Seq<OutboundModel> {
    effs.map_values(|o: Outbound| o@)
}

/// One possible result of a paste: the state and messages that follow when
/// the system clipboard handed back `clip`.
pub open spec fn paste_step_matches(
    m0: KbModel,
    i: KeyInputModel,
    effs: Seq<OutboundModel>,
    m1: KbModel,
    clip: Option<Seq<char>>,
) -> bool {
    let st = apply_key_spec(
        m0.editing,
        i.key,
        i.text,
        m0.shift,
        m0.action_mod,
        m0.input_action,
        clip,
    );
    &&& m1 == kb_with_editing(m0, st.state)
    &&& edit_effects_match(effs, raw_key_model(i), m0.client->0, st)
}

/// Keyboard focus, modifier state, and the attached client's buffer.
pub struct Keyboard {
    /// The remote client owning text focus, if any.
    pub client: Option<u64>,
    /// The submit action the attached client configured.
    pub input_action: TextInputAction,
    /// Shift is held.
    pub shift: bool,
    /// The platform's editing-shortcut modifier is held.
    pub action_mod: bool,
    /// The attached client's buffer and selection.
    pub editing: EditingState,
    clipboard: Option<arboard::Clipboard>,
}

impl View for Keyboard {
    type V = KbModel;

    closed spec fn view(&self) -> KbModel {
        KbModel {
            client: self.client,
            input_action: self.input_action,
            shift: self.shift,
            action_mod: self.action_mod,
            editing: self.editing@,
        }
    }
}

impl Keyboard {
    /// A detached keyboard with an empty buffer, holding whatever clipboard
    /// the platform offers.
    pub fn new() -> (r: Keyboard)
        ensures
            r@ == initial_kb(),
    {
        Keyboard {
            client: None,
            input_action: TextInputAction::Unspecified,
            shift: false,
            action_mod: false,
            editing: EditingState::empty(),
            clipboard: clipboard_new(),
        }
    }

    /// Record the new modifier state from the window system.
    pub fn modifiers_changed(&mut self, shift: bool, action_mod: bool)
        ensures
            final(self)@ == (KbModel {
                client: old(self)@.client,
                input_action: old(self)@.input_action,
                shift: shift,
                action_mod: action_mod,
                editing: old(self)@.editing,
            }),
    {
        self.shift = shift;
        self.action_mod = action_mod;
    }

    /// The state as the attached client sees it.
    pub fn editing_state(&self) -> (r: &EditingState)
        ensures
            r@ == self@.editing,
    {
        &self.editing
    }

    /// Apply one inbound message of the text-input channel.
    pub fn handle_textinput_message(&mut self, msg: TextInput)
        ensures
            msg matches TextInput::SetClient(id, act) ==> final(self)@ == (KbModel {
                client: Some(id),
                input_action: act,
                shift: old(self)@.shift,
                action_mod: old(self)@.action_mod,
                editing: old(self)@.editing,
            }),
            msg is ClearClient ==> final(self)@ == (KbModel {
                client: None,
                input_action: old(self)@.input_action,
                shift: old(self)@.shift,
                action_mod: old(self)@.action_mod,
                editing: old(self)@.editing,
            }),
            msg matches TextInput::SetEditingState(s) ==> final(self)@ == kb_with_editing(
                old(self)@,
                s@,
            ),
            msg is Unsupported ==> final(self)@ == old(self)@,
    {
        match msg {
            TextInput::SetClient(id, act) => {
                self.client = Some(id);
                self.input_action = act;
            },
            TextInput::ClearClient => {
                self.client = None;
            },
            TextInput::SetEditingState(s) => {
                self.editing = s;
            },
            TextInput::Unsupported => {},
        }
    }

    /// Handle one translated key event.
    ///
    /// An untranslatable key is dropped whole.  Any other key is forwarded
    /// raw; if it was pressed while a client is attached and the selection is
    /// valid, the editing table is applied and the final state reported.
    pub fn key_event(&mut self, input: KeyInput) -> (r: KeyOutcome)
        ensures
            (input.physical is None || input.logical_code is None) <==> r is Dropped,
            r is Dropped ==> final(self)@ == old(self)@,
            r matches KeyOutcome::Delivered(effs) ==> {
                &&& effs@.len() >= 1
                &&& outbound_views(effs@)[0] == OutboundModel::RawKey(raw_key_model(input@))
            },
            r matches KeyOutcome::Delivered(effs) ==> (!(input.pressed && edit_guard(
                old(self)@,
            )) ==> {
                &&& final(self)@ == old(self)@
                &&& effs@.len() == 1
            }),
            r matches KeyOutcome::Delivered(effs) ==> (input.pressed && edit_guard(old(self)@)
                && !is_paste(input@, old(self)@.action_mod) ==> {
                let st = apply_key_spec(
                    old(self)@.editing,
                    input@.key,
                    input@.text,
                    old(self)@.shift,
                    old(self)@.action_mod,
                    old(self)@.input_action,
                    None,
                );
                &&& final(self)@ == kb_with_editing(old(self)@, st.state)
                &&& edit_effects_match(
                    outbound_views(effs@),
                    raw_key_model(input@),
                    old(self)@.client->0,
                    st,
                )
            }),
            r matches KeyOutcome::Delivered(effs) ==> (input.pressed && edit_guard(old(self)@)
                && is_paste(input@, old(self)@.action_mod) ==> exists|clip: Option<Seq<char>>|
                #[trigger] paste_step_matches(
                    old(self)@,
                    input@,
                    outbound_views(effs@),
                    final(self)@,
                    clip,
                )),
    {
        let (phys, logi) = match (input.physical, input.logical_code) {
            (Some(p), Some(l)) => (p, l),
            _ => {
                return KeyOutcome::Dropped;
            },
        };
        let kind = if !input.pressed {
            KeyEventKind::Up
        } else if input.repeat {
            KeyEventKind::Repeat
        } else {
            KeyEventKind::Down
        };
        let character = if input.pressed {
            match &input.text {
                Some(t) => Some(crate::text_edit::clone_chars(t)),
                None => None,
            }
        } else {
            None
        };
        let raw = RawKeyEvent {
            timestamp: input.timestamp,
            kind,
            physical: phys,
            logical: logi,
            character,
            synthesized: input.synthesized,
        };
        let mut effs: Vec<Outbound> = Vec::new();
        effs.push(Outbound::RawKey(raw));
        let ghost mut clip_used: Option<Seq<char>> = None;

        let sel_ok = match (self.editing.selection_base, self.editing.selection_extent) {
            (Some(b), Some(e)) => b >= 0 && e >= 0,
            _ => false,
        };
        let fits = self.editing.text.len() as u64 <= crate::text_edit::MAX_TEXT_LEN;
        if input.pressed && self.client.is_some() && sel_ok && fits {
            let client = self.client.unwrap();
            let mut action: Option<TextInputAction> = None;
            match &input.key {
                LogicalKey::Named(k) => match k {
                    NamedEditKey::ArrowLeft => self.editing.move_left(self.shift),
                    NamedEditKey::ArrowRight => self.editing.move_right(self.shift),
                    NamedEditKey::ArrowUp => self.editing.move_home(self.shift),
                    NamedEditKey::Home => self.editing.move_home(self.shift),
                    NamedEditKey::ArrowDown => self.editing.move_end(self.shift),
                    NamedEditKey::End => self.editing.move_end(self.shift),
                    NamedEditKey::Backspace => self.editing.backspace(),
                    NamedEditKey::Delete => self.editing.delete_forward(),
                    NamedEditKey::Enter => {
                        action = Some(self.input_action);
                    },
                    NamedEditKey::Tab => {
                        action = Some(
                            if self.shift {
                                TextInputAction::Previous
                            } else {
                                TextInputAction::Next
                            },
                        );
                    },
                },
                LogicalKey::OtherNamed => {
                    match &input.text {
                        Some(t) => self.editing.insert(t),
                        None => {},
                    }
                },
                LogicalKey::Character(c) => {
                    if self.action_mod && is_single(c, 'a') {
                        self.editing.select_all();
                    } else if self.action_mod && is_single(c, 'x') {
                        if self.editing.has_selection() {
                            let seg = self.editing.selection();
                            self.editing.backspace();
                            match &mut self.clipboard {
                                Some(cb) => {
                                    let _accepted = clipboard_set(cb, &seg);
                                },
                                None => {},
                            }
                        }
                    } else if self.action_mod && is_single(c, 'c') {
                        if self.editing.has_selection() {
                            let seg = self.editing.selection();
                            match &mut self.clipboard {
                                Some(cb) => {
                                    let _accepted = clipboard_set(cb, &seg);
                                },
                                None => {},
                            }
                        }
                    } else if self.action_mod && is_single(c, 'v') {
                        let pasted = match &mut self.clipboard {
                            Some(cb) => clipboard_get(cb),
                            None => None,
                        };
                        proof {
                            clip_used = if pasted is Some {
                                Some(pasted->0@)
                            } else {
                                None
                            };
                        }
                        match &pasted {
                            Some(t) => {
                                if t.len() > 0 {
                                    self.editing.insert(t);
                                }
                            },
                            None => {},
                        }
                    } else {
                        self.editing.insert(c);
                    }
                },
                LogicalKey::Unidentified => {},
                LogicalKey::Dead => {},
            }
            match action {
                Some(a) => {
                    effs.push(Outbound::Action { client, action: a });
                },
                None => {},
            }
            effs.push(
                Outbound::UpdateEditing { client, state: self.editing.duplicate() },
            );
        }
        proof {
            if input.pressed && edit_guard(old(self)@) && is_paste(
                input@,
                old(self)@.action_mod,
            ) {
                assert(paste_step_matches(
                    old(self)@,
                    input@,
                    outbound_views(effs@),
                    self@,
                    clip_used,
                ));
            }
        }
        KeyOutcome::Delivered(effs)
    }
}

/// Setting the editing state stores the given state verbatim: reading it
/// back with no key event in between returns exactly what was set.
pub proof fn lemma_set_editing_state_round_trip(m: KbModel, s: EditModel)
    ensures
        kb_with_editing(m, s).editing == s,
{
}

/// Whatever key is applied, with whatever the clipboard held, a state whose
/// selection endpoints are both set or both unset keeps that shape: no
/// editing step leaves one endpoint set and the other unset.
pub proof fn lemma_apply_key_keeps_selection_paired(
    ed: EditModel,
    key: KeyModel,
    text: Option<Seq<char>>,
    shift: bool,
    action_mod: bool,
    input_action: TextInputAction,
    clip: Option<Seq<char>>,
)
    requires
        crate::text_edit::sel_paired(ed),
    ensures
        crate::text_edit::sel_paired(
            apply_key_spec(ed, key, text, shift, action_mod, input_action, clip).state,
        ),
{
}

/// The codepoint buffer holds exactly the one given character.
fn is_single(c: &Vec<char>, ch: char) -> (r: bool)
    ensures
        r == (c@ == seq![ch]),
{
    let r = c.len() == 1 && c[0] == ch;
    proof {
        if r {
            assert(c@ =~= seq![ch]);
        }
    }
    r
}

} // verus!
