//! The library's error type: a source error with an optional exit code, a
//! context text and a request to show the usage text.
use vstd::prelude::*;
use vstd::string::to_string_from_display_ensures;

verus! {

/// Exit code for successful execution.
pub const CODE_SUCCESS: i32 = 0;

/// Exit code for when there was at least one I/O error during execution.
pub const CODE_RUNTIME_ERROR: i32 = 1;

/// Exit code for when the command-line options are invalid.
pub const CODE_OPTIONS_ERROR: i32 = 3;

/// Exit code for missing file permissions
pub const CODE_PERMISSION_DENIED: i32 = 13;

#[verifier::external_type_specification]
#[verifier::external_body]
pub struct ExIoError(std::io::Error);

/// What went wrong underneath an `Error`.
#[derive(Debug)]
#[non_exhaustive]
pub enum SourceError {
    Io(std::io::Error),
    UnsupportedInputFormat(String),
    UnsupportedOutputFormat(String),
    InvalidInputSource(String),
    Msg(String),
}

/// The text of a source error that carries its own text, `None` for the
/// variant that wraps an I/O error.
pub open spec fn plain_text(e: &SourceError) -> Option<Seq<char>> {
    match e {
        SourceError::Io(_) => None,
        SourceError::UnsupportedInputFormat(s) => Some("Unsupported input format: "@ + s@),
        SourceError::UnsupportedOutputFormat(s) => Some("Unsupported output format: "@ + s@),
        SourceError::InvalidInputSource(s) => Some("Invalid input source: "@ + s@),
        SourceError::Msg(s) => Some(s@),
    }
}

/// `m` is a rendering of `e`: its own text, or what the wrapped I/O
/// error's `Display` gives.
pub open spec fn renders(e: &SourceError, m: String) -> bool {
    match e {
        SourceError::Io(x) => to_string_from_display_ensures::<std::io::Error>(x, m),
        _ => plain_text(e) == Some(m@),
    }
}

/// The text of an error: the context line (if any) above the source's text.
pub open spec fn joined(context: Seq<char>, source: Seq<char>) -> Seq<char> {
    if context.len() == 0 {
        source
    } else {
        context + seq!['\n'] + source
    }
}

impl SourceError {
    /// The text of this error.
    pub fn to_string(&self) -> (r: String)
        ensures
            renders(self, r),
    {
        match self {
            SourceError::Io(e) => e.to_string(),
            SourceError::UnsupportedInputFormat(s) => {
                let mut r = String::from_str("Unsupported input format: ");
                r.append(s.as_str());
                r
            },
            SourceError::UnsupportedOutputFormat(s) => {
                let mut r = String::from_str("Unsupported output format: ");
                r.append(s.as_str());
                r
            },
            SourceError::InvalidInputSource(s) => {
                let mut r = String::from_str("Invalid input source: ");
                r.append(s.as_str());
                r
            },
            SourceError::Msg(s) => s.clone(),
        }
    }
}

impl From<String> for SourceError {
    fn from(s: String) -> (r: SourceError)
        ensures
            r == SourceError::Msg(s),
    {
        SourceError::Msg(s)
    }
}

impl vstd::std_specs::convert::FromSpecImpl<String> for SourceError {
    open spec fn obeys_from_spec() -> bool {
        true
    }

    open spec fn from_spec(s: String) -> SourceError {
        SourceError::Msg(s)
    }
}

impl From<&'static str> for SourceError {
    fn from(s: &'static str) -> (r: SourceError)
        ensures
            r is Msg && r->Msg_0@ == s@,
    {
        SourceError::Msg(s.to_owned())
    }
}

impl vstd::std_specs::convert::FromSpecImpl<&'static str> for SourceError {
    open spec fn obeys_from_spec() -> bool {
        false
    }

    open spec fn from_spec(s: &'static str) -> SourceError {
        choose|e: SourceError| e is Msg && e->Msg_0@ == s@
    }
}

/// An error with an optional exit code, a context text and a flag asking for
/// the usage text to be shown.
#[derive(Debug)]
pub struct Error {
    code: Option<i32>,
    context: String,
    print_help: bool,
    source: SourceError,
}

/// A result whose error is the library's `Error`.
pub type Result<T> = std::result::Result<T, Error>;

/// What to do about an error that ends the run.
pub enum Handling {
    /// The output pipe closed: warn with this line and end successfully.
    BrokenPipe(String),
    /// Log this line as an error.
    Log(String),
}

/// Relies on `std::io::Error::kind`: whether the error is a broken pipe.
#[verifier::external_body]
fn is_broken_pipe(e: &std::io::Error) -> (r: bool) {
    matches!(e.kind(), std::io::ErrorKind::BrokenPipe)
}

impl Error {
    pub closed spec fn spec_code(&self) -> Option<i32> {
        self.code
    }

    pub closed spec fn spec_context(&self) -> Seq<char> {
        self.context@
    }

    pub closed spec fn spec_print_help(&self) -> bool {
        self.print_help
    }

    pub closed spec fn spec_source(&self) -> &SourceError {
        &self.source
    }

    pub fn new(source: SourceError) -> (r: Error)
        ensures
            r.spec_code() is None,
            r.spec_context().len() == 0,
            !r.spec_print_help(),
            *r.spec_source() == source,
    {
        Error { code: None, context: String::new(), print_help: false, source }
    }

    pub fn code(&self) -> (r: Option<i32>)
        ensures
            r == self.spec_code(),
    {
        self.code
    }

    pub fn mut_code(&mut self, code: i32)
        ensures
            final(self).spec_code() == Some(code),
            final(self).spec_context() == old(self).spec_context(),
            final(self).spec_print_help() == old(self).spec_print_help(),
            final(self).spec_source() == old(self).spec_source(),
    {
        self.code = Some(code);
    }

    pub fn set_code(self, code: i32) -> (r: Error)
        ensures
            r.spec_code() == Some(code),
            r.spec_context() == self.spec_context(),
            r.spec_print_help() == self.spec_print_help(),
            r.spec_source() == self.spec_source(),
    {
        let mut e = self;
        e.code = Some(code);
        e
    }

    pub fn unset_code(self) -> (r: Error)
        ensures
            r.spec_code() is None,
            r.spec_context() == self.spec_context(),
            r.spec_print_help() == self.spec_print_help(),
            r.spec_source() == self.spec_source(),
    {
        let mut e = self;
        e.code = None;
        e
    }

    pub fn context(&self) -> (r: &str)
        ensures
            r@ == self.spec_context(),
    {
        self.context.as_str()
    }

    /// Puts `context` above the context already held, or makes it the
    /// context when none is held.
    pub fn mut_context(&mut self, context: &str)
        ensures
            final(self).spec_context() == (if old(self).spec_context().len() == 0 {
                context@
            } else {
                context@ + seq!['\n'] + old(self).spec_context()
            }),
            final(self).spec_code() == old(self).spec_code(),
            final(self).spec_print_help() == old(self).spec_print_help(),
            final(self).spec_source() == old(self).spec_source(),
    {
        if !self.context.as_str().is_empty() {
            let mut c = context.to_owned();
            c.append("\n");
            c.append(self.context.as_str());
            proof {
                reveal_strlit("\n");
            }
            self.context = c;
        } else {
            self.context = context.to_owned();
        }
    }

    /// Replaces the context by `context`; an empty `context` instead puts an
    /// empty line above the context already held.
    pub fn set_context(self, context: &str) -> (r: Error)
        ensures
            r.spec_context() == (if context@.len() != 0 {
                context@
            } else {
                seq!['\n'] + self.spec_context()
            }),
            r.spec_code() == self.spec_code(),
            r.spec_print_help() == self.spec_print_help(),
            r.spec_source() == self.spec_source(),
    {
        let mut e = self;
        if !context.is_empty() {
            e.context = context.to_owned();
        } else {
            let mut c = context.to_owned();
            c.append("\n");
            c.append(e.context.as_str());
            proof {
                reveal_strlit("\n");
            }
            assert(c@ =~= seq!['\n'] + self.spec_context());
            e.context = c;
        }
        e
    }

    pub fn is_print_help(&self) -> (r: bool)
        ensures
            r == self.spec_print_help(),
    {
        self.print_help
    }

    /// Asks for the usage text to be shown.
    pub fn print_help(self) -> (r: Error)
        ensures
            r.spec_print_help(),
            r.spec_code() == self.spec_code(),
            r.spec_context() == self.spec_context(),
            r.spec_source() == self.spec_source(),
    {
        let mut e = self;
        e.print_help = true;
        e
    }

    pub fn with_print_help(self, print_help: bool) -> (r: Error)
        ensures
            r.spec_print_help() == print_help,
            r.spec_code() == self.spec_code(),
            r.spec_context() == self.spec_context(),
            r.spec_source() == self.spec_source(),
    {
        let mut e = self;
        e.print_help = print_help;
        e
    }

    pub fn source(&self) -> (r: &SourceError)
        ensures
            r == self.spec_source(),
    {
        &self.source
    }

    pub fn mut_source(&mut self, source: SourceError)
        ensures
            *final(self).spec_source() == source,
            final(self).spec_code() == old(self).spec_code(),
            final(self).spec_context() == old(self).spec_context(),
            final(self).spec_print_help() == old(self).spec_print_help(),
    {
        self.source = source;
    }

    /// The text of the error: the context, if any, on a line above the text
    /// of the source.
    pub fn to_string(&self) -> (r: String)
        ensures
            exists|m: String| renders(self.spec_source(), m) && r@ == joined(self.spec_context(), m@),
    {
        let m = self.source.to_string();
        if self.context.as_str().is_empty() {
            assert(m@ == joined(self.spec_context(), m@));
            m
        } else {
            let mut r = self.context.clone();
            r.append("\n");
            r.append(m.as_str());
            proof {
                reveal_strlit("\n");
            }
            assert(r@ =~= joined(self.spec_context(), m@));
            r
        }
    }

    /// The exit status that this error ends the run with: its code, or the
    /// runtime-error code when it has none.
    pub fn exit_status(&self) -> (r: i32)
        ensures
            r == (match self.spec_code() {
                Some(c) => c,
                None => CODE_RUNTIME_ERROR,
            }),
    {
        match self.code {
            Some(c) => c,
            None => CODE_RUNTIME_ERROR,
        }
    }
}

/// How an error that ends the run is reported: a broken output pipe is only
/// warned about and ends the run successfully; any other error is logged with
/// its text.
pub fn handle_error(error: &Error) -> (r: Handling)
    ensures
        r is BrokenPipe ==> error.spec_source() is Io,
        match r {
            Handling::BrokenPipe(line) => exists|m: String|
                renders(error.spec_source(), m) && line@ == "Broken pipe encountered: "@ + m@,
            Handling::Log(line) => exists|m: String|
                renders(error.spec_source(), m) && line@ == joined(error.spec_context(), m@),
        },
{
    match error.source() {
        SourceError::Io(e) => {
            if is_broken_pipe(e) {
                let m = e.to_string();
                let mut line = String::from_str("Broken pipe encountered: ");
                line.append(m.as_str());
                assert(renders(error.spec_source(), m));
                return Handling::BrokenPipe(line);
            }
        },
        _ => {},
    }
    Handling::Log(error.to_string())
}

} // verus!
