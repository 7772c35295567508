//! The numbers of the player's client interface.
//!
//! The player speaks to its plugins in numbers: one for each kind of event,
//! one for each format of a property, one for each error.  This module gives
//! them names and reads them back.

use vstd::prelude::*;

verus! {

/// What went wrong in a call of the player's interface.
#[allow(non_camel_case_types)]
#[derive(Debug, Copy, Clone, PartialEq, Eq, Structural)]
pub enum mpv_error {
    SUCCESS,
    EVENT_QUEUE_FULL,
    NOMEM,
    UNINITIALIZED,
    INVALID_PARAMETER,
    OPTION_NOT_FOUND,
    OPTION_FORMAT,
    OPTION_ERROR,
    PROPERTY_NOT_FOUND,
    PROPERTY_FORMAT,
    PROPERTY_UNAVAILABLE,
    PROPERTY_ERROR,
    COMMAND,
    LOADING_FAILED,
    AO_INIT_FAILED,
    VO_INIT_FAILED,
    NOTHING_TO_PLAY,
    UNKNOWN_FORMAT,
    UNSUPPORTED,
    NOT_IMPLEMENTED,
    GENERIC,
}

/// The format in which the value of a property is handed over.
#[allow(non_camel_case_types)]
#[derive(Debug, Copy, Clone, PartialEq, Eq, Structural)]
pub enum mpv_format {
    NONE,
    STRING,
    OSD_STRING,
    FLAG,
    INT64,
    DOUBLE,
    NODE_ARRAY,
    NODE_MAP,
    BYTE_ARRAY,
}

/// The kind of an event that the player reports.
#[allow(non_camel_case_types)]
#[derive(Debug, Copy, Clone, PartialEq, Eq, Structural)]
pub enum mpv_event_id {
    NONE,
    SHUTDOWN,
    LOG_MESSAGE,
    GET_PROPERTY_REPLY,
    SET_PROPERTY_REPLY,
    COMMAND_REPLY,
    START_FILE,
    END_FILE,
    FILE_LOADED,
    CLIENT_MESSAGE,
    VIDEO_RECONFIG,
    AUDIO_RECONFIG,
    SEEK,
    PLAYBACK_RESTART,
    PROPERTY_CHANGE,
    QUEUE_OVERFLOW,
    HOOK,
}

impl mpv_error {
    /// The number that stands for the error in the player's interface.
    pub open spec fn number(self) -> int {
        match self {
            mpv_error::SUCCESS => 0,
            mpv_error::EVENT_QUEUE_FULL => -1,
            mpv_error::NOMEM => -2,
            mpv_error::UNINITIALIZED => -3,
            mpv_error::INVALID_PARAMETER => -4,
            mpv_error::OPTION_NOT_FOUND => -5,
            mpv_error::OPTION_FORMAT => -6,
            mpv_error::OPTION_ERROR => -7,
            mpv_error::PROPERTY_NOT_FOUND => -8,
            mpv_error::PROPERTY_FORMAT => -9,
            mpv_error::PROPERTY_UNAVAILABLE => -10,
            mpv_error::PROPERTY_ERROR => -11,
            mpv_error::COMMAND => -12,
            mpv_error::LOADING_FAILED => -13,
            mpv_error::AO_INIT_FAILED => -14,
            mpv_error::VO_INIT_FAILED => -15,
            mpv_error::NOTHING_TO_PLAY => -16,
            mpv_error::UNKNOWN_FORMAT => -17,
            mpv_error::UNSUPPORTED => -18,
            mpv_error::NOT_IMPLEMENTED => -19,
            mpv_error::GENERIC => -20,
        }
    }

    /// The error that a number of the player's interface stands for, if any.
    pub open spec fn numbered(code: int) -> Option<mpv_error> {
        if code == 0 {
            Some(mpv_error::SUCCESS)
        } else if code == -1 {
            Some(mpv_error::EVENT_QUEUE_FULL)
        } else if code == -2 {
            Some(mpv_error::NOMEM)
        } else if code == -3 {
            Some(mpv_error::UNINITIALIZED)
        } else if code == -4 {
            Some(mpv_error::INVALID_PARAMETER)
        } else if code == -5 {
            Some(mpv_error::OPTION_NOT_FOUND)
        } else if code == -6 {
            Some(mpv_error::OPTION_FORMAT)
        } else if code == -7 {
            Some(mpv_error::OPTION_ERROR)
        } else if code == -8 {
            Some(mpv_error::PROPERTY_NOT_FOUND)
        } else if code == -9 {
            Some(mpv_error::PROPERTY_FORMAT)
        } else if code == -10 {
            Some(mpv_error::PROPERTY_UNAVAILABLE)
        } else if code == -11 {
            Some(mpv_error::PROPERTY_ERROR)
        } else if code == -12 {
            Some(mpv_error::COMMAND)
        } else if code == -13 {
            Some(mpv_error::LOADING_FAILED)
        } else if code == -14 {
            Some(mpv_error::AO_INIT_FAILED)
        } else if code == -15 {
            Some(mpv_error::VO_INIT_FAILED)
        } else if code == -16 {
            Some(mpv_error::NOTHING_TO_PLAY)
        } else if code == -17 {
            Some(mpv_error::UNKNOWN_FORMAT)
        } else if code == -18 {
            Some(mpv_error::UNSUPPORTED)
        } else if code == -19 {
            Some(mpv_error::NOT_IMPLEMENTED)
        } else if code == -20 {
            Some(mpv_error::GENERIC)
        } else {
            None
        }
    }

    /// The number that stands for the error in the player's interface.
    pub fn code(&self) -> (code: i32)
        ensures
            code == self.number(),
    {
        match self {
            mpv_error::SUCCESS => 0,
            mpv_error::EVENT_QUEUE_FULL => -1,
            mpv_error::NOMEM => -2,
            mpv_error::UNINITIALIZED => -3,
            mpv_error::INVALID_PARAMETER => -4,
            mpv_error::OPTION_NOT_FOUND => -5,
            mpv_error::OPTION_FORMAT => -6,
            mpv_error::OPTION_ERROR => -7,
            mpv_error::PROPERTY_NOT_FOUND => -8,
            mpv_error::PROPERTY_FORMAT => -9,
            mpv_error::PROPERTY_UNAVAILABLE => -10,
            mpv_error::PROPERTY_ERROR => -11,
            mpv_error::COMMAND => -12,
            mpv_error::LOADING_FAILED => -13,
            mpv_error::AO_INIT_FAILED => -14,
            mpv_error::VO_INIT_FAILED => -15,
            mpv_error::NOTHING_TO_PLAY => -16,
            mpv_error::UNKNOWN_FORMAT => -17,
            mpv_error::UNSUPPORTED => -18,
            mpv_error::NOT_IMPLEMENTED => -19,
            mpv_error::GENERIC => -20,
        }
    }

    /// Reads the error from its number; a number that stands for none gives
    /// `None`.
    pub fn from_code(code: i32) -> (read: Option<mpv_error>)
        ensures
            read == mpv_error::numbered(code as int),
    {
        if code == 0 {
            Some(mpv_error::SUCCESS)
        } else if code == -1 {
            Some(mpv_error::EVENT_QUEUE_FULL)
        } else if code == -2 {
            Some(mpv_error::NOMEM)
        } else if code == -3 {
            Some(mpv_error::UNINITIALIZED)
        } else if code == -4 {
            Some(mpv_error::INVALID_PARAMETER)
        } else if code == -5 {
            Some(mpv_error::OPTION_NOT_FOUND)
        } else if code == -6 {
            Some(mpv_error::OPTION_FORMAT)
        } else if code == -7 {
            Some(mpv_error::OPTION_ERROR)
        } else if code == -8 {
            Some(mpv_error::PROPERTY_NOT_FOUND)
        } else if code == -9 {
            Some(mpv_error::PROPERTY_FORMAT)
        } else if code == -10 {
            Some(mpv_error::PROPERTY_UNAVAILABLE)
        } else if code == -11 {
            Some(mpv_error::PROPERTY_ERROR)
        } else if code == -12 {
            Some(mpv_error::COMMAND)
        } else if code == -13 {
            Some(mpv_error::LOADING_FAILED)
        } else if code == -14 {
            Some(mpv_error::AO_INIT_FAILED)
        } else if code == -15 {
            Some(mpv_error::VO_INIT_FAILED)
        } else if code == -16 {
            Some(mpv_error::NOTHING_TO_PLAY)
        } else if code == -17 {
            Some(mpv_error::UNKNOWN_FORMAT)
        } else if code == -18 {
            Some(mpv_error::UNSUPPORTED)
        } else if code == -19 {
            Some(mpv_error::NOT_IMPLEMENTED)
        } else if code == -20 {
            Some(mpv_error::GENERIC)
        } else {
            None
        }
    }

    /// Every error is read back from its own number.
    pub proof fn lemma_code_round_trip(value: mpv_error)
        ensures
            mpv_error::numbered(value.number()) == Some(value),
    {
    }

    /// A number that is read as a error is the number of that error.
    pub proof fn lemma_code_is_exact(code: int)
        ensures
            mpv_error::numbered(code) matches Some(value) ==> value.number() == code,
    {
    }
}

impl mpv_format {
    /// The number that stands for the format in the player's interface.
    pub open spec fn number(self) -> int {
        match self {
            mpv_format::NONE => 0,
            mpv_format::STRING => 1,
            mpv_format::OSD_STRING => 2,
            mpv_format::FLAG => 3,
            mpv_format::INT64 => 4,
            mpv_format::DOUBLE => 5,
            mpv_format::NODE_ARRAY => 7,
            mpv_format::NODE_MAP => 8,
            mpv_format::BYTE_ARRAY => 9,
        }
    }

    /// The format that a number of the player's interface stands for, if any.
    pub open spec fn numbered(code: int) -> Option<mpv_format> {
        if code == 0 {
            Some(mpv_format::NONE)
        } else if code == 1 {
            Some(mpv_format::STRING)
        } else if code == 2 {
            Some(mpv_format::OSD_STRING)
        } else if code == 3 {
            Some(mpv_format::FLAG)
        } else if code == 4 {
            Some(mpv_format::INT64)
        } else if code == 5 {
            Some(mpv_format::DOUBLE)
        } else if code == 7 {
            Some(mpv_format::NODE_ARRAY)
        } else if code == 8 {
            Some(mpv_format::NODE_MAP)
        } else if code == 9 {
            Some(mpv_format::BYTE_ARRAY)
        } else {
            None
        }
    }

    /// The number that stands for the format in the player's interface.
    pub fn code(&self) -> (code: i32)
        ensures
            code == self.number(),
    {
        match self {
            mpv_format::NONE => 0,
            mpv_format::STRING => 1,
            mpv_format::OSD_STRING => 2,
            mpv_format::FLAG => 3,
            mpv_format::INT64 => 4,
            mpv_format::DOUBLE => 5,
            mpv_format::NODE_ARRAY => 7,
            mpv_format::NODE_MAP => 8,
            mpv_format::BYTE_ARRAY => 9,
        }
    }

    /// Reads the format from its number; a number that stands for none gives
    /// `None`.
    pub fn from_code(code: i32) -> (read: Option<mpv_format>)
        ensures
            read == mpv_format::numbered(code as int),
    {
        if code == 0 {
            Some(mpv_format::NONE)
        } else if code == 1 {
            Some(mpv_format::STRING)
        } else if code == 2 {
            Some(mpv_format::OSD_STRING)
        } else if code == 3 {
            Some(mpv_format::FLAG)
        } else if code == 4 {
            Some(mpv_format::INT64)
        } else if code == 5 {
            Some(mpv_format::DOUBLE)
        } else if code == 7 {
            Some(mpv_format::NODE_ARRAY)
        } else if code == 8 {
            Some(mpv_format::NODE_MAP)
        } else if code == 9 {
            Some(mpv_format::BYTE_ARRAY)
        } else {
            None
        }
    }

    /// Every format is read back from its own number.
    pub proof fn lemma_code_round_trip(value: mpv_format)
        ensures
            mpv_format::numbered(value.number()) == Some(value),
    {
    }

    /// A number that is read as a format is the number of that format.
    pub proof fn lemma_code_is_exact(code: int)
        ensures
            mpv_format::numbered(code) matches Some(value) ==> value.number() == code,
    {
    }
}

impl mpv_event_id {
    /// The number that stands for the event in the player's interface.
    pub open spec fn number(self) -> int {
        match self {
            mpv_event_id::NONE => 0,
            mpv_event_id::SHUTDOWN => 1,
            mpv_event_id::LOG_MESSAGE => 2,
            mpv_event_id::GET_PROPERTY_REPLY => 3,
            mpv_event_id::SET_PROPERTY_REPLY => 4,
            mpv_event_id::COMMAND_REPLY => 5,
            mpv_event_id::START_FILE => 6,
            mpv_event_id::END_FILE => 7,
            mpv_event_id::FILE_LOADED => 8,
            mpv_event_id::CLIENT_MESSAGE => 16,
            mpv_event_id::VIDEO_RECONFIG => 17,
            mpv_event_id::AUDIO_RECONFIG => 18,
            mpv_event_id::SEEK => 20,
            mpv_event_id::PLAYBACK_RESTART => 21,
            mpv_event_id::PROPERTY_CHANGE => 22,
            mpv_event_id::QUEUE_OVERFLOW => 24,
            mpv_event_id::HOOK => 25,
        }
    }

    /// The event that a number of the player's interface stands for, if any.
    pub open spec fn numbered(code: int) -> Option<mpv_event_id> {
        if code == 0 {
            Some(mpv_event_id::NONE)
        } else if code == 1 {
            Some(mpv_event_id::SHUTDOWN)
        } else if code == 2 {
            Some(mpv_event_id::LOG_MESSAGE)
        } else if code == 3 {
            Some(mpv_event_id::GET_PROPERTY_REPLY)
        } else if code == 4 {
            Some(mpv_event_id::SET_PROPERTY_REPLY)
        } else if code == 5 {
            Some(mpv_event_id::COMMAND_REPLY)
        } else if code == 6 {
            Some(mpv_event_id::START_FILE)
        } else if code == 7 {
            Some(mpv_event_id::END_FILE)
        } else if code == 8 {
            Some(mpv_event_id::FILE_LOADED)
        } else if code == 16 {
            Some(mpv_event_id::CLIENT_MESSAGE)
        } else if code == 17 {
            Some(mpv_event_id::VIDEO_RECONFIG)
        } else if code == 18 {
            Some(mpv_event_id::AUDIO_RECONFIG)
        } else if code == 20 {
            Some(mpv_event_id::SEEK)
        } else if code == 21 {
            Some(mpv_event_id::PLAYBACK_RESTART)
        } else if code == 22 {
            Some(mpv_event_id::PROPERTY_CHANGE)
        } else if code == 24 {
            Some(mpv_event_id::QUEUE_OVERFLOW)
        } else if code == 25 {
            Some(mpv_event_id::HOOK)
        } else {
            None
        }
    }

    /// The number that stands for the event in the player's interface.
    pub fn code(&self) -> (code: i32)
        ensures
            code == self.number(),
    {
        match self {
            mpv_event_id::NONE => 0,
            mpv_event_id::SHUTDOWN => 1,
            mpv_event_id::LOG_MESSAGE => 2,
            mpv_event_id::GET_PROPERTY_REPLY => 3,
            mpv_event_id::SET_PROPERTY_REPLY => 4,
            mpv_event_id::COMMAND_REPLY => 5,
            mpv_event_id::START_FILE => 6,
            mpv_event_id::END_FILE => 7,
            mpv_event_id::FILE_LOADED => 8,
            mpv_event_id::CLIENT_MESSAGE => 16,
            mpv_event_id::VIDEO_RECONFIG => 17,
            mpv_event_id::AUDIO_RECONFIG => 18,
            mpv_event_id::SEEK => 20,
            mpv_event_id::PLAYBACK_RESTART => 21,
            mpv_event_id::PROPERTY_CHANGE => 22,
            mpv_event_id::QUEUE_OVERFLOW => 24,
            mpv_event_id::HOOK => 25,
        }
    }

    /// Reads the event from its number; a number that stands for none gives
    /// `None`.
    pub fn from_code(code: i32) -> (read: Option<mpv_event_id>)
        ensures
            read == mpv_event_id::numbered(code as int),
    {
        if code == 0 {
            Some(mpv_event_id::NONE)
        } else if code == 1 {
            Some(mpv_event_id::SHUTDOWN)
        } else if code == 2 {
            Some(mpv_event_id::LOG_MESSAGE)
        } else if code == 3 {
            Some(mpv_event_id::GET_PROPERTY_REPLY)
        } else if code == 4 {
            Some(mpv_event_id::SET_PROPERTY_REPLY)
        } else if code == 5 {
            Some(mpv_event_id::COMMAND_REPLY)
        } else if code == 6 {
            Some(mpv_event_id::START_FILE)
        } else if code == 7 {
            Some(mpv_event_id::END_FILE)
        } else if code == 8 {
            Some(mpv_event_id::FILE_LOADED)
        } else if code == 16 {
            Some(mpv_event_id::CLIENT_MESSAGE)
        } else if code == 17 {
            Some(mpv_event_id::VIDEO_RECONFIG)
        } else if code == 18 {
            Some(mpv_event_id::AUDIO_RECONFIG)
        } else if code == 20 {
            Some(mpv_event_id::SEEK)
        } else if code == 21 {
            Some(mpv_event_id::PLAYBACK_RESTART)
        } else if code == 22 {
            Some(mpv_event_id::PROPERTY_CHANGE)
        } else if code == 24 {
            Some(mpv_event_id::QUEUE_OVERFLOW)
        } else if code == 25 {
            Some(mpv_event_id::HOOK)
        } else {
            None
        }
    }

    /// Every event is read back from its own number.
    pub proof fn lemma_code_round_trip(value: mpv_event_id)
        ensures
            mpv_event_id::numbered(value.number()) == Some(value),
    {
    }

    /// A number that is read as a event is the number of that event.
    pub proof fn lemma_code_is_exact(code: int)
        ensures
            mpv_event_id::numbered(code) matches Some(value) ==> value.number() == code,
    {
    }

    /// The name of the event in messages.
    pub open spec fn title(self) -> Seq<char> {
        match self {
            mpv_event_id::NONE => "none"@,
            mpv_event_id::SHUTDOWN => "shutdown"@,
            mpv_event_id::LOG_MESSAGE => "log message"@,
            mpv_event_id::GET_PROPERTY_REPLY => "get property reply"@,
            mpv_event_id::SET_PROPERTY_REPLY => "set property reply"@,
            mpv_event_id::COMMAND_REPLY => "command reply"@,
            mpv_event_id::START_FILE => "start file"@,
            mpv_event_id::END_FILE => "end file"@,
            mpv_event_id::FILE_LOADED => "file loaded"@,
            mpv_event_id::CLIENT_MESSAGE => "client message"@,
            mpv_event_id::VIDEO_RECONFIG => "video reconfig"@,
            mpv_event_id::AUDIO_RECONFIG => "audio reconfig"@,
            mpv_event_id::SEEK => "seek"@,
            mpv_event_id::PLAYBACK_RESTART => "playback restart"@,
            mpv_event_id::PROPERTY_CHANGE => "property change"@,
            mpv_event_id::QUEUE_OVERFLOW => "queue overflow"@,
            mpv_event_id::HOOK => "hook"@,
        }
    }

    /// The name of the event in messages.
    pub fn name(&self) -> (name: &'static str)
        ensures
            name@ == self.title(),
    {
        match self {
            mpv_event_id::NONE => "none",
            mpv_event_id::SHUTDOWN => "shutdown",
            mpv_event_id::LOG_MESSAGE => "log message",
            mpv_event_id::GET_PROPERTY_REPLY => "get property reply",
            mpv_event_id::SET_PROPERTY_REPLY => "set property reply",
            mpv_event_id::COMMAND_REPLY => "command reply",
            mpv_event_id::START_FILE => "start file",
            mpv_event_id::END_FILE => "end file",
            mpv_event_id::FILE_LOADED => "file loaded",
            mpv_event_id::CLIENT_MESSAGE => "client message",
            mpv_event_id::VIDEO_RECONFIG => "video reconfig",
            mpv_event_id::AUDIO_RECONFIG => "audio reconfig",
            mpv_event_id::SEEK => "seek",
            mpv_event_id::PLAYBACK_RESTART => "playback restart",
            mpv_event_id::PROPERTY_CHANGE => "property change",
            mpv_event_id::QUEUE_OVERFLOW => "queue overflow",
            mpv_event_id::HOOK => "hook",
        }
    }

    /// The event that a number stands for; a number that stands for none is
    /// taken as no event.
    pub fn from_code_or_none(code: i32) -> (event: mpv_event_id)
        ensures
            event == match mpv_event_id::numbered(code as int) {
                Some(event) => event,
                None => mpv_event_id::NONE,
            },
    {
        match mpv_event_id::from_code(code) {
            Some(event) => event,
            None => mpv_event_id::NONE,
        }
    }
}

/// A failed call of the player's interface.
#[derive(Debug, Copy, Clone, PartialEq, Eq, Structural)]
pub struct Error(pub mpv_error);

impl Error {
    /// The failure that the error `error` stands for.
    pub fn new(error: mpv_error) -> (failure: Self)
        ensures
            failure.0 == error,
    {
        Self(error)
    }

    /// The number of the error in the player's interface.
    pub fn code(&self) -> (code: i32)
        ensures
            code == self.0.number(),
    {
        self.0.code()
    }

    /// What a call gave, from the number it returned: success for the number
    /// of success, the named error for the number of an error, and the
    /// generic error for any other number.
    pub fn check(code: i32) -> (outcome: Result<(), Error>)
        ensures
            outcome == match mpv_error::numbered(code as int) {
                Some(mpv_error::SUCCESS) => Ok::<(), Error>(()),
                Some(error) => Err(Error(error)),
                None => Err(Error(mpv_error::GENERIC)),
            },
    {
        match mpv_error::from_code(code) {
            Some(mpv_error::SUCCESS) => Ok(()),
            Some(error) => Err(Error::new(error)),
            None => Err(Error::new(mpv_error::GENERIC)),
        }
    }
}

/// What the player reported, from the two numbers of its report: the error
/// of the report if it has one, else the kind of the event.
pub open spec fn reported(error: int, event: int) -> Result<mpv_event_id, Error> {
    match mpv_error::numbered(error) {
        Some(mpv_error::SUCCESS) => Ok(
            match mpv_event_id::numbered(event) {
                Some(event) => event,
                None => mpv_event_id::NONE,
            },
        ),
        Some(error) => Err(Error(error)),
        None => Err(Error(mpv_error::GENERIC)),
    }
}

/// Reads a report of the player.  A report with an error gives the error; a
/// report without gives its event, and no event where the number of the
/// event is unknown.
pub fn read_event(error: i32, event: i32) -> (report: Result<mpv_event_id, Error>)
    ensures
        report == reported(error as int, event as int),
{
    match Error::check(error) {
        Ok(()) => Ok(mpv_event_id::from_code_or_none(event)),
        Err(e) => Err(e),
    }
}

} // verus!
