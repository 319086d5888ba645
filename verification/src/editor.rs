//! The interactive editor's state machine: a cursor over the registers and
//! fields of one live family, modal drill-down into a field's attributes,
//! in-place text editing with fail-silent parsing, and an explicit
//! save-and-exit transition.  Rendering and persistence live outside; the
//! machine only maps one input event to one state change.

use crate::register::{Field, Register, RegisterFamily};
use crate::textparse::{
    parse_bool, parse_u8, spec_parse_bool, spec_parse_u8, spec_trim, spec_u8_digits, trim,
    bool_to_string, u8_to_string,
};
use vstd::prelude::*;
use vstd::string::StringExecFns;

verus! {

/// The sub-modes of the editor's home page.
#[derive(Clone, Copy)]
pub enum HomePageState {
    SelectRegisterAndField,
    SelectFieldInfo,
    EditFieldInfo,
}

/// The editor's top-level pages.
#[derive(Clone, Copy)]
pub enum BasePage {
    Home(HomePageState),
    AddRegister,
}

/// One discrete input event, as the terminal hands them over.
#[derive(Clone, Copy)]
pub enum InputEvent {
    Char(char),
    Up,
    Down,
    Left,
    Right,
    Enter,
    Backspace,
    Esc,
}

/// What the event loop should do after a step.
#[derive(Clone, Copy)]
pub enum EditorOutcome {
    Continue,
    SaveAndExit,
}

/// The live editor state: the family being edited, the cursor indices into
/// it, the current page, and the free-text input buffer.
pub struct App {
    pub original_path: String,
    pub register_family: RegisterFamily,
    pub register_index: usize,
    pub register_info_index: usize,
    pub field_index: usize,
    pub field_info_index: usize,
    pub state: BasePage,
    pub input: String,
}

/// Relies on String::push: appends one character at the end of the buffer.
#[verifier::external_body]
fn string_push(s: &mut String, c: char)
    ensures
        final(s)@ == old(s)@.push(c),
{
    s.push(c);
}

/// Relies on String::pop: removes and returns the last character, if any.
#[verifier::external_body]
fn string_pop(s: &mut String) -> (r: Option<char>)
    ensures
        old(s)@.len() == 0 ==> r is None && final(s)@ == old(s)@,
        old(s)@.len() > 0 ==> r == Some(old(s)@.last()) && final(s)@ == old(s)@.drop_last(),
{
    s.pop()
}

/// Relies on String::clear: empties the buffer.
#[verifier::external_body]
fn string_clear(s: &mut String)
    ensures
        final(s)@ == Seq::<char>::empty(),
{
    s.clear();
}

/// The data the editor owns is unchanged.
pub open spec fn same_model(a: App, b: App) -> bool {
    b.original_path == a.original_path && b.register_family == a.register_family
}

/// Every cursor is unchanged.
pub open spec fn same_cursors(a: App, b: App) -> bool {
    &&& b.register_index == a.register_index
    &&& b.register_info_index == a.register_info_index
    &&& b.field_index == a.field_index
    &&& b.field_info_index == a.field_info_index
}

/// Advance the register cursor with wrap-around; the field and
/// field-attribute cursors reset to the first slot.
pub open spec fn spec_next_register(a: App, b: App) -> bool {
    &&& same_model(a, b)
    &&& b.input == a.input
    &&& b.state == a.state
    &&& b.register_info_index == a.register_info_index
    &&& b.register_index as int == (a.register_index + 1) % (a.register_count() as int)
    &&& b.field_index == 0
    &&& b.field_info_index == 0
}

/// Move the register cursor back with wrap-around; the field and
/// field-attribute cursors reset to the first slot.
pub open spec fn spec_previous_register(a: App, b: App) -> bool {
    &&& same_model(a, b)
    &&& b.input == a.input
    &&& b.state == a.state
    &&& b.register_info_index == a.register_info_index
    &&& b.register_index as int == (if a.register_index > 0 {
        a.register_index - 1
    } else {
        a.register_count() - 1
    })
    &&& b.field_index == 0
    &&& b.field_info_index == 0
}

/// Advance the field cursor with wrap-around; the field-attribute cursor
/// resets to the first slot.
pub open spec fn spec_next_field(a: App, b: App) -> bool {
    &&& same_model(a, b)
    &&& b.input == a.input
    &&& b.state == a.state
    &&& b.register_index == a.register_index
    &&& b.register_info_index == a.register_info_index
    &&& b.field_index as int == (a.field_index + 1) % (a.cur_field_count() as int)
    &&& b.field_info_index == 0
}

/// Move the field cursor back with wrap-around; the field-attribute cursor
/// resets to the first slot.
pub open spec fn spec_previous_field(a: App, b: App) -> bool {
    &&& same_model(a, b)
    &&& b.input == a.input
    &&& b.state == a.state
    &&& b.register_index == a.register_index
    &&& b.register_info_index == a.register_info_index
    &&& b.field_index as int == (if a.field_index > 0 {
        a.field_index - 1
    } else {
        a.cur_field_count() - 1
    })
    &&& b.field_info_index == 0
}

/// Advance the field-attribute cursor over its five fixed slots.
pub open spec fn spec_next_field_info(a: App, b: App) -> bool {
    &&& same_model(a, b)
    &&& b.input == a.input
    &&& b.state == a.state
    &&& b.register_index == a.register_index
    &&& b.register_info_index == a.register_info_index
    &&& b.field_index == a.field_index
    &&& b.field_info_index as int == (a.field_info_index + 1) % 5
}

/// Move the field-attribute cursor back over its five fixed slots.
pub open spec fn spec_previous_field_info(a: App, b: App) -> bool {
    &&& same_model(a, b)
    &&& b.input == a.input
    &&& b.state == a.state
    &&& b.register_index == a.register_index
    &&& b.register_info_index == a.register_info_index
    &&& b.field_index == a.field_index
    &&& b.field_info_index == (if a.field_info_index > 0 {
        (a.field_info_index - 1) as usize
    } else {
        4usize
    })
}

/// Advance the register-attribute cursor over its two fixed slots.
pub open spec fn spec_next_register_info(a: App, b: App) -> bool {
    &&& same_model(a, b)
    &&& b.input == a.input
    &&& b.state == a.state
    &&& b.register_index == a.register_index
    &&& b.field_index == a.field_index
    &&& b.field_info_index == a.field_info_index
    &&& b.register_info_index as int == (a.register_info_index + 1) % 2
}

/// Move the register-attribute cursor back over its two fixed slots.
pub open spec fn spec_previous_register_info(a: App, b: App) -> bool {
    &&& same_model(a, b)
    &&& b.input == a.input
    &&& b.state == a.state
    &&& b.register_index == a.register_index
    &&& b.field_index == a.field_index
    &&& b.field_info_index == a.field_info_index
    &&& b.register_info_index == (if a.register_info_index > 0 {
        (a.register_info_index - 1) as usize
    } else {
        1usize
    })
}

/// One character typed into the input buffer.
pub open spec fn spec_type_char(a: App, b: App, c: char) -> bool {
    &&& same_model(a, b)
    &&& same_cursors(a, b)
    &&& b.state == a.state
    &&& b.input@ == a.input@.push(c)
}

/// The last character of the input buffer removed, if there is one.
pub open spec fn spec_delete_char(a: App, b: App) -> bool {
    &&& same_model(a, b)
    &&& same_cursors(a, b)
    &&& b.state == a.state
    &&& a.input@.len() == 0 ==> b.input@ == a.input@
    &&& a.input@.len() > 0 ==> b.input@ == a.input@.drop_last()
}

/// Only the page changed.
pub open spec fn spec_set_state(a: App, b: App, st: BasePage) -> bool {
    &&& same_model(a, b)
    &&& same_cursors(a, b)
    &&& b.input == a.input
    &&& b.state == st
}

/// The edit abandoned: the buffer discarded, back to attribute selection.
pub open spec fn spec_cancel_edit(a: App, b: App) -> bool {
    &&& same_model(a, b)
    &&& same_cursors(a, b)
    &&& b.input@ == Seq::<char>::empty()
    &&& b.state == BasePage::Home(HomePageState::SelectFieldInfo)
}

/// The field after a commit of the text `text` to attribute slot `slot`:
/// on a successful parse exactly that attribute is overwritten, on a failed
/// parse the field is unchanged.
pub open spec fn spec_apply_edit(f: Field, slot: usize, text: Seq<char>) -> Field {
    if slot == 0 {
        match spec_parse_u8(text) {
            Some(x) => Field {
                name: f.name,
                lsb: x,
                msb: f.msb,
                read: f.read,
                write: f.write,
                negative: f.negative,
            },
            None => f,
        }
    } else if slot == 1 {
        match spec_parse_u8(text) {
            Some(x) => Field {
                name: f.name,
                lsb: f.lsb,
                msb: x,
                read: f.read,
                write: f.write,
                negative: f.negative,
            },
            None => f,
        }
    } else if slot == 2 {
        match spec_parse_bool(text) {
            Some(x) => Field {
                name: f.name,
                lsb: f.lsb,
                msb: f.msb,
                read: x,
                write: f.write,
                negative: f.negative,
            },
            None => f,
        }
    } else if slot == 3 {
        match spec_parse_bool(text) {
            Some(x) => Field {
                name: f.name,
                lsb: f.lsb,
                msb: f.msb,
                read: f.read,
                write: x,
                negative: f.negative,
            },
            None => f,
        }
    } else if slot == 4 {
        match spec_parse_bool(text) {
            Some(x) => Field {
                name: f.name,
                lsb: f.lsb,
                msb: f.msb,
                read: f.read,
                write: f.write,
                negative: Some(x),
            },
            None => f,
        }
    } else {
        f
    }
}

/// A commit of the input buffer to the selected attribute of the selected
/// field: that one field changes as `spec_apply_edit` says, and nothing
/// else — no other field, no other register, no cursor, no buffer.
pub open spec fn spec_edit_applied(a: App, b: App) -> bool {
    let regs = a.register_family.registers@;
    let ri = a.register_index as int;
    let fi = a.field_index as int;
    &&& b.original_path == a.original_path
    &&& b.register_family.register_family == a.register_family.register_family
    &&& b.register_family.register_family_widths == a.register_family.register_family_widths
    &&& same_cursors(a, b)
    &&& b.input == a.input
    &&& b.state == a.state
    &&& b.register_family.registers@.len() == regs.len()
    &&& (forall|i: int|
        0 <= i < regs.len() && i != ri ==> b.register_family.registers@[i] == regs[i])
    &&& b.register_family.registers@[ri].name == regs[ri].name
    &&& b.register_family.registers@[ri].size == regs[ri].size
    &&& b.register_family.registers@[ri].fields@.len() == regs[ri].fields@.len()
    &&& (forall|j: int|
        0 <= j < regs[ri].fields@.len() && j != fi ==> b.register_family.registers@[ri].fields@[j]
            == regs[ri].fields@[j])
    &&& b.register_family.registers@[ri].fields@[fi] == spec_apply_edit(
        regs[ri].fields@[fi],
        a.field_info_index,
        spec_trim(a.input@),
    )
}

impl App {
    /// How many registers the family holds.
    pub open spec fn register_count(self) -> nat {
        self.register_family.registers@.len()
    }

    /// How many fields the register under the cursor holds.
    pub open spec fn cur_field_count(self) -> nat {
        self.register_family.registers@[self.register_index as int].fields@.len()
    }

    /// A navigable editor state: there is at least one register, every
    /// register has at least one field, and every cursor is in range.
    pub open spec fn wf(self) -> bool {
        &&& self.register_count() > 0
        &&& (forall|i: int|
            0 <= i < self.register_count() ==> (#[trigger] self.register_family.registers@[i]).fields@.len()
                > 0)
        &&& (self.register_index as int) < self.register_count()
        &&& (self.field_index as int) < self.cur_field_count()
        &&& self.field_info_index < 5
        &&& self.register_info_index < 2
    }

    /// A fresh editor session over the given family: every cursor on the
    /// first slot, register/field selection mode, empty input buffer.
    pub fn new(path: String, register_family: RegisterFamily) -> (r: App)
        ensures
            r.original_path == path,
            r.register_family == register_family,
            r.register_index == 0,
            r.register_info_index == 0,
            r.field_index == 0,
            r.field_info_index == 0,
            r.state == BasePage::Home(HomePageState::SelectRegisterAndField),
            r.input@ == Seq::<char>::empty(),
    {
        App {
            original_path: path,
            register_family,
            register_index: 0,
            register_info_index: 0,
            field_index: 0,
            field_info_index: 0,
            state: BasePage::Home(HomePageState::SelectRegisterAndField),
            input: String::new(),
        }
    }

    /// Move the register cursor right, wrapping past the last register, and
    /// reset the field and field-attribute cursors.
    pub fn next_register(&mut self)
        requires
            old(self).register_count() > 0,
            (old(self).register_index as int) < old(self).register_count(),
        ensures
            spec_next_register(*old(self), *final(self)),
    {
        self.field_index = 0;
        self.field_info_index = 0;
        let n = self.register_family.registers.len();
        self.register_index = (self.register_index + 1) % n;
    }

    /// Move the register cursor left, wrapping before the first register,
    /// and reset the field and field-attribute cursors.
    pub fn previous_register(&mut self)
        requires
            old(self).register_count() > 0,
        ensures
            spec_previous_register(*old(self), *final(self)),
    {
        self.field_index = 0;
        self.field_info_index = 0;
        if self.register_index > 0 {
            self.register_index = self.register_index - 1;
        } else {
            self.register_index = self.register_family.registers.len() - 1;
        }
    }

    /// Move the field cursor down, wrapping past the last field of the
    /// selected register, and reset the field-attribute cursor.
    pub fn next_field(&mut self)
        requires
            (old(self).register_index as int) < old(self).register_count(),
            old(self).cur_field_count() > 0,
            (old(self).field_index as int) < old(self).cur_field_count(),
        ensures
            spec_next_field(*old(self), *final(self)),
    {
        self.field_info_index = 0;
        let n = self.register_family.registers[self.register_index].fields.len();
        self.field_index = (self.field_index + 1) % n;
    }

    /// Move the field cursor up, wrapping before the first field of the
    /// selected register, and reset the field-attribute cursor.
    pub fn previous_field(&mut self)
        requires
            (old(self).register_index as int) < old(self).register_count(),
            old(self).cur_field_count() > 0,
        ensures
            spec_previous_field(*old(self), *final(self)),
    {
        self.field_info_index = 0;
        if self.field_index > 0 {
            self.field_index = self.field_index - 1;
        } else {
            self.field_index = self.register_family.registers[self.register_index].fields.len()
                - 1;
        }
    }

    /// Move the field-attribute cursor down its five fixed slots, wrapping.
    pub fn next_field_info(&mut self)
        requires
            old(self).field_info_index < 5,
        ensures
            spec_next_field_info(*old(self), *final(self)),
    {
        self.field_info_index = (self.field_info_index + 1) % 5;
    }

    /// Move the field-attribute cursor up its five fixed slots, wrapping.
    pub fn previous_field_info(&mut self)
        ensures
            spec_previous_field_info(*old(self), *final(self)),
    {
        if self.field_info_index > 0 {
            self.field_info_index = self.field_info_index - 1;
        } else {
            self.field_info_index = 4;
        }
    }

    /// Move the register-attribute cursor down its two fixed slots, wrapping.
    pub fn next_register_info(&mut self)
        requires
            old(self).register_info_index < 2,
        ensures
            spec_next_register_info(*old(self), *final(self)),
    {
        self.register_info_index = (self.register_info_index + 1) % 2;
    }

    /// Move the register-attribute cursor up its two fixed slots, wrapping.
    pub fn previous_register_info(&mut self)
        ensures
            spec_previous_register_info(*old(self), *final(self)),
    {
        if self.register_info_index > 0 {
            self.register_info_index = self.register_info_index - 1;
        } else {
            self.register_info_index = 1;
        }
    }

    /// Commit the input buffer to the selected attribute of the selected
    /// field.  A buffer that does not parse as the attribute's type leaves
    /// the model untouched; nothing else changes either way.
    pub fn set_field_info(&mut self)
        requires
            (old(self).register_index as int) < old(self).register_count(),
            (old(self).field_index as int) < old(self).cur_field_count(),
        ensures
            spec_edit_applied(*old(self), *final(self)),
    {
        let ri = self.register_index;
        let fi = self.field_index;
        let slot = self.field_info_index;
        let parsed_u8: Option<u8>;
        let parsed_bool: Option<bool>;
        {
            let t = trim(self.input.as_str());
            parsed_u8 = parse_u8(t);
            parsed_bool = parse_bool(t);
        }
        let field = &mut self.register_family.registers[ri].fields[fi];
        if slot == 0 {
            if let Some(x) = parsed_u8 {
                field.lsb = x;
            }
        } else if slot == 1 {
            if let Some(x) = parsed_u8 {
                field.msb = x;
            }
        } else if slot == 2 {
            if let Some(x) = parsed_bool {
                field.read = x;
            }
        } else if slot == 3 {
            if let Some(x) = parsed_bool {
                field.write = x;
            }
        } else if slot == 4 {
            if let Some(x) = parsed_bool {
                field.negative = Some(x);
            }
        }
    }

    /// The selected attribute's label and current value, both as text; a
    /// field-attribute cursor out of its five slots yields an error marker.
    pub fn get_selected_field_as_string(&self) -> (r: (String, String))
        requires
            (self.register_index as int) < self.register_count(),
            (self.field_index as int) < self.cur_field_count(),
        ensures
            ({
                let f =
                    self.register_family.registers@[self.register_index as int].fields@[self.field_index as int];
                &&& self.field_info_index == 0 ==> r.0@ == "LSB"@ && r.1@ == spec_u8_digits(f.lsb)
                &&& self.field_info_index == 1 ==> r.0@ == "MSB"@ && r.1@ == spec_u8_digits(f.msb)
                &&& self.field_info_index == 2 ==> r.0@ == "Read"@ && r.1@ == (if f.read {
                    "true"@
                } else {
                    "false"@
                })
                &&& self.field_info_index == 3 ==> r.0@ == "Write"@ && r.1@ == (if f.write {
                    "true"@
                } else {
                    "false"@
                })
                &&& self.field_info_index == 4 ==> r.0@ == "Negative"@ && r.1@ == (
                if f.spec_is_signed() {
                    "true"@
                } else {
                    "false"@
                })
                &&& self.field_info_index >= 5 ==> r.0@ == "ERROR"@ && r.1@ == "ERROR"@
            }),
    {
        let field = &self.register_family.registers[self.register_index].fields[self.field_index];
        if self.field_info_index == 0 {
            (String::from_str("LSB"), u8_to_string(field.lsb))
        } else if self.field_info_index == 1 {
            (String::from_str("MSB"), u8_to_string(field.msb))
        } else if self.field_info_index == 2 {
            (String::from_str("Read"), bool_to_string(field.read))
        } else if self.field_info_index == 3 {
            (String::from_str("Write"), bool_to_string(field.write))
        } else if self.field_info_index == 4 {
            let v = match field.negative {
                Some(x) => bool_to_string(x),
                None => bool_to_string(false),
            };
            (String::from_str("Negative"), v)
        } else {
            (String::from_str("ERROR"), String::from_str("ERROR"))
        }
    }
}

/// The full transition relation of the editor: from state `a`, event `ev`
/// leads to state `b`, quitting (to save and exit) exactly when `quit`.
pub open spec fn spec_step(a: App, b: App, ev: InputEvent, quit: bool) -> bool {
    match a.state {
        BasePage::Home(HomePageState::SelectRegisterAndField) => match ev {
            InputEvent::Char(c) => if c == 'q' {
                b == a && quit
            } else if c == 'a' {
                spec_set_state(a, b, BasePage::AddRegister) && !quit
            } else {
                b == a && !quit
            },
            InputEvent::Right => spec_next_register(a, b) && !quit,
            InputEvent::Left => spec_previous_register(a, b) && !quit,
            InputEvent::Up => spec_previous_field(a, b) && !quit,
            InputEvent::Down => spec_next_field(a, b) && !quit,
            InputEvent::Enter => spec_set_state(
                a,
                b,
                BasePage::Home(HomePageState::SelectFieldInfo),
            ) && !quit,
            _ => b == a && !quit,
        },
        BasePage::Home(HomePageState::SelectFieldInfo) => match ev {
            InputEvent::Char(c) => if c == 'q' {
                b == a && quit
            } else {
                b == a && !quit
            },
            InputEvent::Up => spec_previous_field_info(a, b) && !quit,
            InputEvent::Down => spec_next_field_info(a, b) && !quit,
            InputEvent::Enter => spec_set_state(
                a,
                b,
                BasePage::Home(HomePageState::EditFieldInfo),
            ) && !quit,
            InputEvent::Esc => spec_set_state(
                a,
                b,
                BasePage::Home(HomePageState::SelectRegisterAndField),
            ) && !quit,
            _ => b == a && !quit,
        },
        BasePage::Home(HomePageState::EditFieldInfo) => match ev {
            InputEvent::Char(c) => spec_type_char(a, b, c) && !quit,
            InputEvent::Backspace => spec_delete_char(a, b) && !quit,
            InputEvent::Enter => spec_edit_applied(a, b) && !quit,
            InputEvent::Esc => spec_cancel_edit(a, b) && !quit,
            _ => b == a && !quit,
        },
        BasePage::AddRegister => match ev {
            InputEvent::Char(c) => spec_type_char(a, b, c) && !quit,
            InputEvent::Backspace => spec_delete_char(a, b) && !quit,
            InputEvent::Up => spec_previous_register_info(a, b) && !quit,
            InputEvent::Down => spec_next_register_info(a, b) && !quit,
            InputEvent::Esc => spec_set_state(
                a,
                b,
                BasePage::Home(HomePageState::SelectRegisterAndField),
            ) && !quit,
            _ => b == a && !quit,
        },
    }
}

impl App {
    /// Interpret one input event: at most one state change and at most one
    /// model mutation, exactly as `spec_step` lays out; `SaveAndExit` tells
    /// the caller to persist the family and end the session.
    pub fn handle_event(&mut self, ev: InputEvent) -> (r: EditorOutcome)
        requires
            old(self).wf(),
        ensures
            spec_step(*old(self), *final(self), ev, r is SaveAndExit),
            final(self).wf(),
    {
        match self.state {
            BasePage::Home(HomePageState::SelectRegisterAndField) => match ev {
                InputEvent::Char(c) => {
                    if c == 'q' {
                        EditorOutcome::SaveAndExit
                    } else if c == 'a' {
                        self.state = BasePage::AddRegister;
                        EditorOutcome::Continue
                    } else {
                        EditorOutcome::Continue
                    }
                },
                InputEvent::Right => {
                    self.next_register();
                    proof {
                        assert(self.register_family.registers@[self.register_index as int].fields@.len()
                            > 0);
                    }
                    EditorOutcome::Continue
                },
                InputEvent::Left => {
                    self.previous_register();
                    proof {
                        assert(self.register_family.registers@[self.register_index as int].fields@.len()
                            > 0);
                    }
                    EditorOutcome::Continue
                },
                InputEvent::Up => {
                    self.previous_field();
                    EditorOutcome::Continue
                },
                InputEvent::Down => {
                    self.next_field();
                    EditorOutcome::Continue
                },
                InputEvent::Enter => {
                    self.state = BasePage::Home(HomePageState::SelectFieldInfo);
                    EditorOutcome::Continue
                },
                _ => EditorOutcome::Continue,
            },
            BasePage::Home(HomePageState::SelectFieldInfo) => match ev {
                InputEvent::Char(c) => {
                    if c == 'q' {
                        EditorOutcome::SaveAndExit
                    } else {
                        EditorOutcome::Continue
                    }
                },
                InputEvent::Up => {
                    self.previous_field_info();
                    EditorOutcome::Continue
                },
                InputEvent::Down => {
                    self.next_field_info();
                    EditorOutcome::Continue
                },
                InputEvent::Enter => {
                    self.state = BasePage::Home(HomePageState::EditFieldInfo);
                    EditorOutcome::Continue
                },
                InputEvent::Esc => {
                    self.state = BasePage::Home(HomePageState::SelectRegisterAndField);
                    EditorOutcome::Continue
                },
                _ => EditorOutcome::Continue,
            },
            BasePage::Home(HomePageState::EditFieldInfo) => match ev {
                InputEvent::Char(c) => {
                    string_push(&mut self.input, c);
                    EditorOutcome::Continue
                },
                InputEvent::Backspace => {
                    string_pop(&mut self.input);
                    EditorOutcome::Continue
                },
                InputEvent::Enter => {
                    let ghost pre = *self;
                    self.set_field_info();
                    proof {
                        assert forall|i: int|
                            0 <= i < self.register_count() implies (#[trigger] self.register_family.registers@[i]).fields@.len()
                            > 0 by {
                            if i != pre.register_index as int {
                                assert(self.register_family.registers@[i]
                                    == pre.register_family.registers@[i]);
                            }
                        }
                    }
                    EditorOutcome::Continue
                },
                InputEvent::Esc => {
                    string_clear(&mut self.input);
                    self.state = BasePage::Home(HomePageState::SelectFieldInfo);
                    EditorOutcome::Continue
                },
                _ => EditorOutcome::Continue,
            },
            BasePage::AddRegister => match ev {
                InputEvent::Char(c) => {
                    string_push(&mut self.input, c);
                    EditorOutcome::Continue
                },
                InputEvent::Backspace => {
                    string_pop(&mut self.input);
                    EditorOutcome::Continue
                },
                InputEvent::Up => {
                    self.previous_register_info();
                    EditorOutcome::Continue
                },
                InputEvent::Down => {
                    self.next_register_info();
                    EditorOutcome::Continue
                },
                InputEvent::Esc => {
                    self.state = BasePage::Home(HomePageState::SelectRegisterAndField);
                    EditorOutcome::Continue
                },
                _ => EditorOutcome::Continue,
            },
        }
    }
}

} // verus!
