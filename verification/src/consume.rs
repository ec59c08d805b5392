//! Decision logic of the consume command.
//!
//! The command itself — argument parsing, the connection, the record
//! stream, printing — lives outside the wire core. What is decided from
//! the options alone is computed here: which starting offset the consumer
//! asks for, which status note it announces, and how a record is laid out
//! as a line.

use vstd::prelude::*;
use vstd::string::StringExecFns;

verus! {

/// How consumed records are rendered.
#[allow(non_camel_case_types)]
#[derive(Debug, Clone, Copy, PartialEq, Eq, Structural)]
pub enum ConsumeOutputType {
    dynamic,
    text,
    binary,
    json,
    raw,
}

/// Output defaults to dynamic formatting.
impl Default for ConsumeOutputType {
    fn default() -> (r: Self)
        ensures
            r == ConsumeOutputType::dynamic,
    {
        ConsumeOutputType::dynamic
    }
}

/// Options of the consume command: read messages from a topic partition,
/// streaming by default, formatted as asked.
#[derive(Debug, Clone, PartialEq, Eq)]
pub struct ConsumeOpt {
    /// Topic name.
    pub topic: String,
    /// Partition id.
    pub partition: i32,
    /// Start reading from the beginning.
    pub from_beginning: bool,
    /// Disable continuous processing of messages.
    pub disable_continuous: bool,
    /// Print records in "[key] value" format, with "[null]" for no key.
    pub key_value: bool,
    /// Offset to start from; negative counts back from the end.
    pub offset: Option<i64>,
    /// Maximum number of bytes to be retrieved.
    pub max_bytes: Option<i32>,
    /// Suppress items that have an unknown output type.
    pub suppress_unknown: bool,
    /// Output rendering.
    pub output: ConsumeOutputType,
    /// Path to a stream filter module.
    pub filter: Option<String>,
    /// Path to a stream map module.
    pub map: Option<String>,
}

/// The starting position a consumer asks the stream engine for.
#[derive(Debug, Clone, Copy, PartialEq, Eq, Structural)]
pub enum StartOffset {
    /// So many records after the start of the partition.
    FromBeginning(u32),
    /// So many records before the end of the partition.
    FromEnd(u32),
    /// An absolute, non-negative record offset.
    Absolute(i64),
    /// The current end: wait for new records.
    End,
}

/// Failure of option handling.
#[derive(Debug, Clone, PartialEq, Eq)]
pub enum CliError {
    InvalidArg(String),
}

/// Which starting offset the options name: relative offsets must fit an
/// unsigned 32-bit count and absolute offsets must be non-negative;
/// anything else is no choice at all.
pub open spec fn offset_choice(from_beginning: bool, offset: Option<i64>) -> Option<StartOffset> {
    if from_beginning {
        let big = match offset {
            Some(o) => o as int,
            None => 0,
        };
        if 0 <= big && big <= u32::MAX {
            Some(StartOffset::FromBeginning(big as u32))
        } else {
            None
        }
    } else {
        match offset {
            Some(o) => if o < 0 {
                if -(o as int) <= u32::MAX {
                    Some(StartOffset::FromEnd((-(o as int)) as u32))
                } else {
                    None
                }
            } else {
                Some(StartOffset::Absolute(o))
            },
            None => Some(StartOffset::End),
        }
    }
}

/// The status note the command announces before streaming.
#[derive(Debug, Clone, Copy, PartialEq, Eq, Structural)]
pub enum StatusNote {
    /// Consuming from the beginning of the topic.
    FromStart,
    /// Consuming from the given positive offset.
    FromOffset(i64),
    /// Consuming starting so far back from the end; carries the
    /// non-positive offset as given.
    FromEndBack(i64),
    /// Consuming from the end, waiting for new records.
    Tail,
}

/// Which note the options call for.
pub open spec fn status_note_spec(from_beginning: bool, offset: Option<i64>) -> StatusNote {
    if from_beginning {
        StatusNote::FromStart
    } else {
        match offset {
            Some(o) => if o > 0 {
                StatusNote::FromOffset(o)
            } else {
                StatusNote::FromEndBack(o)
            },
            None => StatusNote::Tail,
        }
    }
}

impl ConsumeOpt {
    /// The starting offset the options name, or the complaint the command
    /// reports for an offset no consumer can be asked for.
    pub fn calculate_offset(&self) -> (r: Result<StartOffset, CliError>)
        ensures
            ({
                match offset_choice(self.from_beginning, self.offset) {
                    Some(o) => r == Ok::<StartOffset, CliError>(o),
                    None => (r matches Err(CliError::InvalidArg(m)) && m@
                        == "Illegal offset. Relative offsets must be u32 and absolute offsets must be positive"@),
                }
            }),
    {
        let maybe: Option<StartOffset> = if self.from_beginning {
            let big: i64 = match self.offset {
                Some(o) => o,
                None => 0,
            };
            if 0 <= big && big <= u32::MAX as i64 {
                Some(StartOffset::FromBeginning(big as u32))
            } else {
                None
            }
        } else {
            match self.offset {
                Some(o) => if o < 0 {
                    if o == i64::MIN {
                        None
                    } else if -o <= u32::MAX as i64 {
                        Some(StartOffset::FromEnd((-o) as u32))
                    } else {
                        None
                    }
                } else {
                    Some(StartOffset::Absolute(o))
                },
                None => Some(StartOffset::End),
            }
        };
        match maybe {
            Some(o) => Ok(o),
            None => Err(
                CliError::InvalidArg(
                    String::from_str(
                        "Illegal offset. Relative offsets must be u32 and absolute offsets must be positive",
                    ),
                ),
            ),
        }
    }

    /// The status note the options call for; whether it is shown at all
    /// is the terminal's affair, not decided here.
    pub fn status_note(&self) -> (r: StatusNote)
        ensures
            r == status_note_spec(self.from_beginning, self.offset),
    {
        if self.from_beginning {
            StatusNote::FromStart
        } else {
            match self.offset {
                Some(o) => if o > 0 {
                    StatusNote::FromOffset(o)
                } else {
                    StatusNote::FromEndBack(o)
                },
                None => StatusNote::Tail,
            }
        }
    }
}

/// The line printed for one record: nothing when the formatter yielded
/// nothing; the bare value without key-value mode; and with it, the value
/// after the bracketed key, "[null]" standing for a record without one.
pub fn record_line(key: Option<String>, value: Option<String>, key_value: bool) -> (r: Option<
    String,
>)
    ensures
        value is None ==> r is None,
        ({
            match value {
                None => r is None,
                Some(v) => if key_value {
                    match key {
                        Some(k) => (r matches Some(l) && l@ == "["@ + k@ + "] "@ + v@),
                        None => (r matches Some(l) && l@ == "[null] "@ + v@),
                    }
                } else {
                    (r matches Some(l) && l@ == v@)
                },
            }
        }),
{
    let v = match value {
        Some(v) => v,
        None => {
            return None;
        },
    };
    if key_value {
        let mut line = String::new();
        match key {
            Some(k) => {
                line.append("[");
                line.append(k.as_str());
                line.append("] ");
            },
            None => {
                line.append("[null] ");
            },
        }
        line.append(v.as_str());
        proof {
            assert(Seq::<char>::empty() + "["@ =~= "["@);
            assert(Seq::<char>::empty() + "[null] "@ =~= "[null] "@);
        }
        Some(line)
    } else {
        Some(v)
    }
}

} // verus!
