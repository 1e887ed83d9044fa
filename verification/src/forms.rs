//! The interfaces of the form-editing subsystem that the toolkit's
//! widgets share: field metadata, the selection field's state, and the
//! small enums the form and tracer widgets exchange.

use vstd::prelude::*;

verus! {

/// Metadata of one field of a form.
pub struct FieldMeta {
    pub id: &'static str,
    pub label: &'static str,
    pub required: bool,
    pub help_text: Option<&'static str>,
}

/// What a list field is doing with its input box.
#[derive(Debug, Clone, Copy, PartialEq, Eq, Structural)]
pub enum ListAction {
    Nothing,
    Edit,
    Add,
}

/// How a form closed.
#[derive(Debug, Clone, Copy, PartialEq, Eq, Structural)]
pub enum FormWidgetStatus {
    Pending,
    Submit,
    Cancel,
}

/// An enum value that a select field can edit: a fixed option list, a
/// textual form, and a way back.
pub trait EnumFormValue: Sized {
    fn all_options() -> Vec<Self>;

    fn option_text(&self) -> String;

    fn from_string(s: &str) -> Option<Self>;
}

/// A drop-down selection over a fixed list of options.
#[derive(Debug)]
pub struct SelectFormField {
    pub options: Vec<String>,
    pub selected: usize,
    pub dropdown_open: bool,
}

impl SelectFormField {
    pub fn new(options: Vec<String>, selected: usize) -> (r: SelectFormField)
        ensures
            r.options@ == options@,
            r.selected == selected,
            !r.dropdown_open,
    {
        SelectFormField { options, selected, dropdown_open: false }
    }

    /// The rows the field occupies: three closed, plus one per option
    /// while the drop-down is open.
    pub fn calculate_height(&self) -> (h: u16)
        requires
            self.options@.len() + 3 <= u16::MAX,
        ensures
            h as int == if self.dropdown_open {
                3 + self.options@.len() as int
            } else {
                3int
            },
    {
        if self.dropdown_open {
            3 + self.options.len() as u16
        } else {
            3
        }
    }

    /// The selected option's text, or empty when the index is out of
    /// range.
    pub fn get_value(&self) -> (v: String)
        ensures
            self.selected < self.options@.len() ==> v@ == self.options@[self.selected as int]@,
            self.selected >= self.options@.len() ==> v@.len() == 0,
    {
        if self.selected < self.options.len() {
            self.options[self.selected].clone()
        } else {
            String::new()
        }
    }

    /// A selection is valid exactly when it names one of the options.
    pub fn is_valid(&self) -> (b: bool)
        ensures
            b == (self.selected < self.options@.len()),
    {
        self.selected < self.options.len()
    }

    pub fn is_active(&self) -> (b: bool)
        ensures
            b == self.dropdown_open,
    {
        self.dropdown_open
    }

    pub fn enter(&mut self)
        ensures
            *final(self) == (SelectFormField { dropdown_open: true, ..*old(self) }),
    {
        self.dropdown_open = true;
    }

    pub fn leave(&mut self)
        ensures
            *final(self) == (SelectFormField { dropdown_open: false, ..*old(self) }),
    {
        self.dropdown_open = false;
    }

    pub fn is_open(&self) -> (b: bool)
        ensures
            b == self.dropdown_open,
    {
        self.dropdown_open
    }

    /// Moves the highlighted option or closes the drop-down; ignored
    /// while closed. The highlight never leaves the option list.
    pub fn handle_key_event(&mut self, key: crate::scrollback::KeyInput) -> (handled: bool)
        ensures
            !old(self).dropdown_open ==> *final(self) == *old(self) && !handled,
            old(self).dropdown_open ==> match key.code {
                crate::scrollback::Key::Up => handled && *final(self) == (SelectFormField {
                    selected: if old(self).selected > 0 {
                        (old(self).selected - 1) as usize
                    } else {
                        0
                    },
                    ..*old(self)
                }),
                crate::scrollback::Key::Down => handled && *final(self) == (SelectFormField {
                    selected: if old(self).selected + 1 < old(self).options@.len() {
                        (old(self).selected + 1) as usize
                    } else {
                        old(self).selected
                    },
                    ..*old(self)
                }),
                crate::scrollback::Key::Enter => handled && *final(self) == (SelectFormField {
                    dropdown_open: false,
                    ..*old(self)
                }),
                _ => !handled && *final(self) == *old(self),
            },
    {
        if !self.dropdown_open {
            return false;
        }
        match key.code {
            crate::scrollback::Key::Up => {
                if self.selected > 0 {
                    self.selected = self.selected - 1;
                }
                true
            },
            crate::scrollback::Key::Down => {
                if self.selected < self.options.len() && self.selected + 1 < self.options.len() {
                    self.selected = self.selected + 1;
                }
                true
            },
            crate::scrollback::Key::Enter => {
                self.dropdown_open = false;
                true
            },
            _ => false,
        }
    }
}

/// Whether a trace filter includes or excludes what it matches.
#[derive(Debug, Clone, Copy, PartialEq, Eq, Structural)]
pub enum Inclusion {
    INCLUDE,
    EXCLUDE,
}

impl Inclusion {
    pub fn from_flag(value: bool) -> (r: Inclusion)
        ensures
            r == if value {
                Inclusion::INCLUDE
            } else {
                Inclusion::EXCLUDE
            },
    {
        if value {
            Inclusion::INCLUDE
        } else {
            Inclusion::EXCLUDE
        }
    }

    pub fn as_flag(self) -> (b: bool)
        ensures
            b == (self == Inclusion::INCLUDE),
    {
        matches!(self, Inclusion::INCLUDE)
    }
}

/// A trace severity as edited in the filter form.
#[derive(Debug, Clone, Copy, PartialEq, Eq, Structural)]
pub enum TraceLevelForm {
    ERROR,
    WARN,
    INFO,
    DEBUG,
    TRACE,
}

/// A trace filter as edited in the filter form: plain pattern lists and
/// flags, converted at the boundary to whatever the tracing backend
/// uses.
#[derive(Debug, Clone, PartialEq)]
pub struct TraceFilterForm {
    pub level: TraceLevelForm,
    pub inclusion: Inclusion,
    pub module_patterns: Vec<String>,
    pub file_patterns: Vec<String>,
    pub span_patterns: Vec<String>,
    pub target_patterns: Vec<String>,
}

/// A command sent to the console widget from outside.
#[derive(Debug, Clone, PartialEq)]
pub enum ConsoleCommand {
    Clear,
    Lines(Vec<String>),
}

/// What a tracer console does when its buffer is full.
#[derive(Debug, Clone, Copy, PartialEq, Eq, Structural)]
pub enum OverflowMode {
    Evict,
    Drop,
}

/// Which way a container splits its area.
#[derive(Debug, Clone, Copy, PartialEq, Eq, Structural)]
pub enum SplitDirection {
    Horizontal,
    Vertical,
}

/// How the input backend batches events: queue depths, the tick length
/// and the per-frame drain cap.
#[derive(Clone, Copy, Debug, PartialEq, Eq, Structural)]
pub struct InputBackendOpts {
    pub key_buffer: usize,
    pub mouse_buffer: usize,
    pub tick_rate_ms: u64,
    pub flush_cap: usize,
}

impl InputBackendOpts {
    /// The defaults: small batches at roughly 13 Hz, capped well above
    /// any interactive rate.
    pub fn standard() -> (r: InputBackendOpts)
        ensures
            r == (InputBackendOpts {
                key_buffer: 5,
                mouse_buffer: 8,
                tick_rate_ms: 75u64,
                flush_cap: 512,
            }),
    {
        InputBackendOpts { key_buffer: 5, mouse_buffer: 8, tick_rate_ms: 75, flush_cap: 512 }
    }
}

} // verus!
