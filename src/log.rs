//! Console lines and log-file records of an update run. The logger decides
//! what is written where; writing it is left to the caller.

use vstd::prelude::*;
use vstd::string::*;

verus! {

/// The console stream a line goes to.
#[derive(PartialEq, Eq, Structural, Clone, Copy, Debug)]
pub enum Stream {
    Stdout,
    Stderr,
}

/// The severity of a log-file record.
#[derive(PartialEq, Eq, Structural, Clone, Copy, Debug)]
pub enum Level {
    Error,
    Warn,
    Info,
    Debug,
}

/// A line for the console, newline included.
pub struct ConsoleLine {
    pub stream: Stream,
    pub text: String,
}

/// A record for the log file.
pub struct FileRecord {
    pub level: Level,
    pub text: String,
}

/// What one message leaves on the console and in the log file.
pub struct Batch {
    pub console: Option<ConsoleLine>,
    pub file: Option<FileRecord>,
}

/// Console and file logging of one run: whether the terminal takes ANSI colour
/// codes, and whether verbose messages are shown.
#[derive(PartialEq, Eq, Structural, Clone, Copy, Debug)]
pub struct Logger {
    pub ansi: bool,
    pub verbose: bool,
}

/// The marker letter of a line, in bold of the given colour digit when colours are on.
pub open spec fn header(ansi: bool, colour: char, letter: char) -> Seq<char> {
    if ansi {
        seq!['\x1b', '[', '1', ';', '3', colour, 'm', letter, '\x1b', '[', '0', 'm']
    } else {
        seq![letter]
    }
}

pub open spec fn headed(header: Seq<char>, message: Seq<char>) -> Seq<char> {
    header + seq![' '] + message + seq!['\n']
}

pub open spec fn plain(message: Seq<char>) -> Seq<char> {
    message + seq!['\n']
}

pub open spec fn level_name(level: Level) -> Seq<char> {
    match level {
        Level::Error => seq!['E', 'R', 'R', 'O', 'R'],
        Level::Warn => seq!['W', 'A', 'R', 'N'],
        Level::Info => seq!['I', 'N', 'F', 'O'],
        Level::Debug => seq!['D', 'E', 'B', 'U', 'G'],
    }
}

fn headed_line(header: &str, message: &str) -> (r: String)
    ensures
        r@ == headed(header@, message@),
{
    let mut text = String::from_str(header);
    text.append(" ");
    text.append(message);
    text.append("\n");
    proof {
        reveal_strlit(" ");
        reveal_strlit("\n");
        assert(text@ =~= headed(header@, message@));
    }
    text
}

fn plain_line(message: &str) -> (r: String)
    ensures
        r@ == plain(message@),
{
    let mut text = String::from_str(message);
    text.append("\n");
    proof {
        reveal_strlit("\n");
    }
    text
}

fn record(level: Level, message: &str) -> (r: FileRecord)
    ensures
        r.level == level,
        r.text@ == message@,
{
    FileRecord { level, text: String::from_str(message) }
}

impl Logger {
    pub fn new(ansi: bool, verbose: bool) -> (r: Logger)
        ensures
            r.ansi == ansi,
            r.verbose == verbose,
    {
        Logger { ansi, verbose }
    }

    /// `E message`, on standard error.
    pub fn console_error(&self, message: &str) -> (r: ConsoleLine)
        ensures
            r.stream == Stream::Stderr,
            r.text@ == headed(header(self.ansi, '1', 'E'), message@),
    {
        let h = if self.ansi {
            "\x1b[1;31mE\x1b[0m"
        } else {
            "E"
        };
        proof {
            reveal_strlit("\x1b[1;31mE\x1b[0m");
            reveal_strlit("E");
            assert(h@ =~= header(self.ansi, '1', 'E'));
        }
        ConsoleLine { stream: Stream::Stderr, text: headed_line(h, message) }
    }

    /// `O message`, on standard output.
    pub fn console_success(&self, message: &str) -> (r: ConsoleLine)
        ensures
            r.stream == Stream::Stdout,
            r.text@ == headed(header(self.ansi, '2', 'O'), message@),
    {
        let h = if self.ansi {
            "\x1b[1;32mO\x1b[0m"
        } else {
            "O"
        };
        proof {
            reveal_strlit("\x1b[1;32mO\x1b[0m");
            reveal_strlit("O");
            assert(h@ =~= header(self.ansi, '2', 'O'));
        }
        ConsoleLine { stream: Stream::Stdout, text: headed_line(h, message) }
    }

    /// `W message`, on standard error.
    pub fn console_warn(&self, message: &str) -> (r: ConsoleLine)
        ensures
            r.stream == Stream::Stderr,
            r.text@ == headed(header(self.ansi, '3', 'W'), message@),
    {
        let h = if self.ansi {
            "\x1b[1;33mW\x1b[0m"
        } else {
            "W"
        };
        proof {
            reveal_strlit("\x1b[1;33mW\x1b[0m");
            reveal_strlit("W");
            assert(h@ =~= header(self.ansi, '3', 'W'));
        }
        ConsoleLine { stream: Stream::Stderr, text: headed_line(h, message) }
    }

    /// The bare message, on standard error.
    pub fn console_info(&self, message: &str) -> (r: ConsoleLine)
        ensures
            r.stream == Stream::Stderr,
            r.text@ == plain(message@),
    {
        ConsoleLine { stream: Stream::Stderr, text: plain_line(message) }
    }

    /// The bare message on standard output, in verbose mode only.
    pub fn console_verbose(&self, message: &str) -> (r: Option<ConsoleLine>)
        ensures
            r is Some <==> self.verbose,
            r matches Some(line) ==> line.stream == Stream::Stdout && line.text@ == plain(message@),
    {
        if self.verbose {
            Some(ConsoleLine { stream: Stream::Stdout, text: plain_line(message) })
        } else {
            None
        }
    }

    pub fn file_error(&self, message: &str) -> (r: FileRecord)
        ensures
            r.level == Level::Error,
            r.text@ == message@,
    {
        record(Level::Error, message)
    }

    pub fn file_info(&self, message: &str) -> (r: FileRecord)
        ensures
            r.level == Level::Info,
            r.text@ == message@,
    {
        record(Level::Info, message)
    }

    pub fn file_warn(&self, message: &str) -> (r: FileRecord)
        ensures
            r.level == Level::Warn,
            r.text@ == message@,
    {
        record(Level::Warn, message)
    }

    /// A debug record, in verbose mode only.
    pub fn file_verbose(&self, message: &str) -> (r: Option<FileRecord>)
        ensures
            r is Some <==> self.verbose,
            r matches Some(rec) ==> rec.level == Level::Debug && rec.text@ == message@,
    {
        if self.verbose {
            Some(record(Level::Debug, message))
        } else {
            None
        }
    }

    /// An error on the console and in the log file.
    pub fn batch_error(&self, message: &str) -> (r: Batch)
        ensures
            r.console matches Some(line) && line.stream == Stream::Stderr && line.text@ == headed(
                header(self.ansi, '1', 'E'),
                message@,
            ),
            r.file matches Some(rec) && rec.level == Level::Error && rec.text@ == message@,
    {
        Batch { console: Some(self.console_error(message)), file: Some(self.file_error(message)) }
    }

    /// A success on the console, recorded as information in the log file.
    pub fn batch_success(&self, message: &str) -> (r: Batch)
        ensures
            r.console matches Some(line) && line.stream == Stream::Stdout && line.text@ == headed(
                header(self.ansi, '2', 'O'),
                message@,
            ),
            r.file matches Some(rec) && rec.level == Level::Info && rec.text@ == message@,
    {
        Batch { console: Some(self.console_success(message)), file: Some(self.file_info(message)) }
    }

    /// A warning on the console and in the log file.
    pub fn batch_warn(&self, message: &str) -> (r: Batch)
        ensures
            r.console matches Some(line) && line.stream == Stream::Stderr && line.text@ == headed(
                header(self.ansi, '3', 'W'),
                message@,
            ),
            r.file matches Some(rec) && rec.level == Level::Warn && rec.text@ == message@,
    {
        Batch { console: Some(self.console_warn(message)), file: Some(self.file_warn(message)) }
    }

    /// Information on the console and in the log file.
    pub fn batch_info(&self, message: &str) -> (r: Batch)
        ensures
            r.console matches Some(line) && line.stream == Stream::Stderr && line.text@ == plain(
                message@,
            ),
            r.file matches Some(rec) && rec.level == Level::Info && rec.text@ == message@,
    {
        Batch { console: Some(self.console_info(message)), file: Some(self.file_info(message)) }
    }

    /// A verbose message on the console and in the log file; nothing otherwise.
    pub fn batch_verbose(&self, message: &str) -> (r: Batch)
        ensures
            r.console is Some <==> self.verbose,
            r.file is Some <==> self.verbose,
            r.console matches Some(line) ==> line.stream == Stream::Stdout && line.text@ == plain(
                message@,
            ),
            r.file matches Some(rec) ==> rec.level == Level::Debug && rec.text@ == message@,
    {
        Batch { console: self.console_verbose(message), file: self.file_verbose(message) }
    }
}

/// The log file name for a run that started at the given timestamp.
pub fn log_file_name(timestamp: &str) -> (r: String)
    ensures
        r@ == seq!['u', 'p', 'd', 'a', 't', 'e', 'r', '_'] + timestamp@ + seq!['.', 't', 'x', 't'],
{
    let mut name = String::from_str("updater_");
    name.append(timestamp);
    name.append(".txt");
    proof {
        reveal_strlit("updater_");
        reveal_strlit(".txt");
        assert(name@ =~= seq!['u', 'p', 'd', 'a', 't', 'e', 'r', '_'] + timestamp@ + seq![
            '.',
            't',
            'x',
            't',
        ]);
    }
    name
}

/// A line of the log file: `<time> [<LEVEL>] <message>`.
pub fn file_line(time: &str, level: Level, message: &str) -> (r: String)
    ensures
        r@ == time@ + seq![' ', '['] + level_name(level) + seq![']', ' '] + message@,
{
    let name = match level {
        Level::Error => "ERROR",
        Level::Warn => "WARN",
        Level::Info => "INFO",
        Level::Debug => "DEBUG",
    };
    proof {
        reveal_strlit("ERROR");
        reveal_strlit("WARN");
        reveal_strlit("INFO");
        reveal_strlit("DEBUG");
        reveal_strlit(" [");
        reveal_strlit("] ");
        assert(name@ =~= level_name(level));
    }
    let mut line = String::from_str(time);
    line.append(" [");
    line.append(name);
    line.append("] ");
    line.append(message);
    proof {
        assert(line@ =~= time@ + seq![' ', '['] + level_name(level) + seq![']', ' '] + message@);
    }
    line
}

} // verus!
