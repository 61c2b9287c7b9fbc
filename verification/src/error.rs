//! The error taxonomy: operation tags, captured call sites, and the unified
//! error type with its cause chain.

use crate::digits::{decimal, hex_digit, hex_digit_str, u32_decimal};
use vstd::prelude::*;
use vstd::string::{StrSliceExecFns, StringExecFns};

verus! {

/// The mathematical value of an [`Operation`]: the same variants, with each
/// text payload as a character sequence.
pub enum OpView {
    GettingProjectFile,
    JoiningProject(Seq<char>),
    Generic(Seq<char>),
    File(Seq<char>, Seq<char>),
    Shell,
    ParseSshKeygen,
}

/// A tag describing what action was being attempted when a low-level
/// failure occurred.
///
/// An `Operation` is immutable after construction and cheap to duplicate;
/// its display form is a short human sentence fragment.
pub enum Operation {
    /// Downloading the project files.
    GettingProjectFile,
    /// Joining a project from a network address; the payload is the address
    /// in its serialized text form.
    JoiningProject(String),
    /// A static descriptive label.
    Generic(String),
    /// An action name plus the filesystem path it applies to.
    File(String, String),
    /// Replacing the current process image with git-shell.
    Shell,
    /// Interpreting the output of the external key-generation tool.
    ParseSshKeygen,
}

impl View for Operation {
    type V = OpView;

    open spec fn view(&self) -> OpView {
        match self {
            Operation::GettingProjectFile => OpView::GettingProjectFile,
            Operation::JoiningProject(address) => OpView::JoiningProject(address@),
            Operation::Generic(label) => OpView::Generic(label@),
            Operation::File(action, path) => OpView::File(action@, path@),
            Operation::Shell => OpView::Shell,
            Operation::ParseSshKeygen => OpView::ParseSshKeygen,
        }
    }
}

/// The `\u{..}` escape of a control character's code point, in lowercase
/// hexadecimal without leading zeros (control characters lie below 0x100,
/// so two digits suffice).
pub open spec fn control_escape(v: u32) -> Seq<char> {
    if v < 16 {
        seq!['\\', 'u', '{', hex_digit(v), '}']
    } else {
        seq!['\\', 'u', '{', hex_digit(v / 16), hex_digit(v % 16), '}']
    }
}

/// Debug-style escaping of one character, as a quoted path shows it: a
/// backslash before a double quote or a backslash, the named short escapes
/// for NUL, tab, newline and carriage return, the `\u{..}` form for the
/// other control characters, and every other character unchanged.
pub open spec fn escape_char(c: char) -> Seq<char> {
    if c == '"' {
        seq!['\\', '"']
    } else if c == '\\' {
        seq!['\\', '\\']
    } else if c == '\n' {
        seq!['\\', 'n']
    } else if c == '\r' {
        seq!['\\', 'r']
    } else if c == '\t' {
        seq!['\\', 't']
    } else if c == '\0' {
        seq!['\\', '0']
    } else if (c as u32) < 0x20 || ((c as u32) >= 0x7f && (c as u32) <= 0x9f) {
        control_escape(c as u32)
    } else {
        seq![c]
    }
}

/// Debug-style escaping of a text, character by character.
pub open spec fn escape_seq(s: Seq<char>) -> Seq<char>
    decreases s.len(),
{
    if s.len() == 0 {
        Seq::empty()
    } else {
        escape_seq(s.drop_last()) + escape_char(s.last())
    }
}

/// The display form of an operation: a short sentence fragment naming the
/// action. A `File` operation shows its path between double quotes, its
/// characters escaped Debug-style.
pub open spec fn op_display(op: OpView) -> Seq<char> {
    match op {
        OpView::GettingProjectFile => "downloading project files"@,
        OpView::JoiningProject(address) => "joining project from "@ + address,
        OpView::Generic(label) => label,
        OpView::File(action, path) => action + " in \""@ + escape_seq(path) + "\""@,
        OpView::Shell => "replacing process with git-shell"@,
        OpView::ParseSshKeygen => "unexpected output from ssh-keygen"@,
    }
}

impl Clone for Operation {
    fn clone(&self) -> (r: Self)
        ensures
            r@ == self@,
    {
        match self {
            Operation::GettingProjectFile => Operation::GettingProjectFile,
            Operation::JoiningProject(address) => Operation::JoiningProject(address.clone()),
            Operation::Generic(label) => Operation::Generic(label.clone()),
            Operation::File(action, path) => Operation::File(action.clone(), path.clone()),
            Operation::Shell => Operation::Shell,
            Operation::ParseSshKeygen => Operation::ParseSshKeygen,
        }
    }
}

/// Escapes a text Debug-style, character by character.
fn escape_text(s: &str) -> (r: String)
    ensures
        r@ == escape_seq(s@),
{
    let n = s.unicode_len();
    let mut r = String::new();
    let mut i: usize = 0;
    while i < n
        invariant
            i <= n,
            n == s@.len(),
            r@ == escape_seq(s@.subrange(0, i as int)),
        decreases n - i,
    {
        proof {
            reveal_strlit("\\\"");
            reveal_strlit("\\\\");
            reveal_strlit("\\n");
            reveal_strlit("\\r");
            reveal_strlit("\\t");
            reveal_strlit("\\0");
            reveal_strlit("\\u{");
            reveal_strlit("}");
        }
        let ghost pre = r@;
        let c = s.get_char(i);
        if c == '"' {
            r.append("\\\"");
        } else if c == '\\' {
            r.append("\\\\");
        } else if c == '\n' {
            r.append("\\n");
        } else if c == '\r' {
            r.append("\\r");
        } else if c == '\t' {
            r.append("\\t");
        } else if c == '\0' {
            r.append("\\0");
        } else if (c as u32) < 0x20 || ((c as u32) >= 0x7f && (c as u32) <= 0x9f) {
            let v: u32 = c as u32;
            r.append("\\u{");
            if v >= 16 {
                r.append(hex_digit_str(v / 16));
            }
            r.append(hex_digit_str(v % 16));
            r.append("}");
        } else {
            let piece = s.substring_char(i, i + 1);
            proof {
                assert(s@.subrange(i as int, i + 1) =~= seq![s@[i as int]]);
            }
            r.append(piece);
        }
        proof {
            assert(r@ =~= pre + escape_char(s@[i as int]));
            assert(s@.subrange(0, (i + 1) as int).drop_last() =~= s@.subrange(0, i as int));
        }
        i = i + 1;
    }
    proof {
        assert(s@.subrange(0, n as int) =~= s@);
    }
    r
}

impl Operation {
    /// The display form: a short human sentence fragment, a pure function
    /// of the operation's value.
    pub fn display(&self) -> (r: String)
        ensures
            r@ == op_display(self@),
    {
        match self {
            Operation::GettingProjectFile => "downloading project files".to_owned(),
            Operation::JoiningProject(address) => {
                let mut s = "joining project from ".to_owned();
                s.append(address.as_str());
                s
            },
            Operation::Generic(label) => label.clone(),
            Operation::File(action, path) => {
                let mut s = action.clone();
                s.append(" in \"");
                let escaped = escape_text(path.as_str());
                s.append(escaped.as_str());
                s.append("\"");
                s
            },
            Operation::Shell => "replacing process with git-shell".to_owned(),
            Operation::ParseSshKeygen => "unexpected output from ssh-keygen".to_owned(),
        }
    }
}

/// Every operation whose `Generic` label is non-empty displays as non-empty
/// text. (Empty text can come only from `Generic` with an empty label; the
/// other variants carry a fixed non-empty fragment.)
pub proof fn lemma_op_display_nonempty(op: OpView)
    requires
        op matches OpView::Generic(label) ==> label.len() > 0,
    ensures
        op_display(op).len() > 0,
{
    reveal_strlit("downloading project files");
    reveal_strlit("joining project from ");
    reveal_strlit(" in \"");
    reveal_strlit("\"");
    reveal_strlit("replacing process with git-shell");
    reveal_strlit("unexpected output from ssh-keygen");
}

/// The mathematical value of a [`Location`].
pub struct LocView {
    pub file: Seq<char>,
    pub line: nat,
    pub col: nat,
}

/// A captured call site: source file, line and column.
pub struct Location {
    pub file: String,
    pub line: u32,
    pub col: u32,
}

impl View for Location {
    type V = LocView;

    open spec fn view(&self) -> LocView {
        LocView { file: self.file@, line: self.line as nat, col: self.col as nat }
    }
}

/// The display form of a captured call site: `file:line:column`.
pub open spec fn loc_display(l: LocView) -> Seq<char> {
    l.file + ":"@ + decimal(l.line) + ":"@ + decimal(l.col)
}

impl Clone for Location {
    fn clone(&self) -> (r: Self)
        ensures
            r@ == self@,
    {
        Location { file: self.file.clone(), line: self.line, col: self.col }
    }
}

impl Location {
    /// The display form: `file:line:column`.
    pub fn display(&self) -> (r: String)
        ensures
            r@ == loc_display(self@),
    {
        let mut s = self.file.clone();
        s.append(":");
        let line = u32_decimal(self.line);
        s.append(line.as_str());
        s.append(":");
        let col = u32_decimal(self.col);
        s.append(col.as_str());
        s
    }
}

/// The view of an optional captured call site.
pub open spec fn opt_loc_view(loc: Option<Location>) -> Option<LocView> {
    match loc {
        None => None,
        Some(l) => Some(l@),
    }
}

/// A lower-level error as this crate models it: the message it displays and
/// an optional deeper cause, forming a finite chain.
pub struct SourceError {
    /// The message this link displays.
    pub message: String,
    /// The next, lower-level link of the cause chain, if any.
    pub cause: Option<Box<SourceError>>,
}

impl SourceError {
    /// The messages of this link and of every link below it, outermost
    /// first.
    pub open spec fn chain(self) -> Seq<Seq<char>>
        decreases self,
    {
        match self.cause {
            None => seq![self.message@],
            Some(c) => seq![self.message@] + c.chain(),
        }
    }

    /// The message of this link, as a character sequence.
    pub open spec fn message_view(self) -> Seq<char> {
        self.message@
    }

    /// The link `n` steps below this one, if the chain reaches that deep.
    pub open spec fn walk(self, n: nat) -> Option<SourceError>
        decreases n,
    {
        if n == 0 {
            Some(self)
        } else {
            match self.cause {
                None => None,
                Some(c) => c.walk((n - 1) as nat),
            }
        }
    }

    /// The display form of one link: its own message.
    pub fn display(&self) -> (r: String)
        ensures
            r@ == self.message@,
    {
        self.message.clone()
    }

    /// The next link of the cause chain, if any.
    pub fn source(&self) -> (r: Option<&SourceError>)
        ensures
            self.cause matches Some(c) ==> r matches Some(s) && *s == c,
            self.cause is None ==> r is None,
    {
        match &self.cause {
            Some(c) => Some(&**c),
            None => None,
        }
    }
}

/// Every chain has at least one link: the walk below a link stays within
/// the chain's length, and from its length on it yields nothing more.
pub proof fn lemma_cause_walk_terminates(s: SourceError, n: nat)
    ensures
        s.walk(n) is Some <==> n < s.chain().len(),
    decreases n,
{
    if n > 0 {
        match s.cause {
            None => {},
            Some(c) => {
                lemma_cause_walk_terminates(*c, (n - 1) as nat);
            },
        }
    }
}

/// A failure of the tool, tagged with the operation that was being
/// attempted.
///
/// `B` is the opaque payload type of an unexpected defect; a payload is
/// carried, never inspected.
pub enum Error<B> {
    /// A lower-level failure wrapped together with the operation being
    /// attempted and, when diagnostics are enabled, the call site at which
    /// the capture factory was made.
    IoOperation { source: Box<SourceError>, op: Operation, loc: Option<Location> },
    /// An unrecognized SSH key type name.
    UnknownSshKeytype(String),
    /// No viable network interface was found for sharing the project.
    UnsharableProject,
    /// An unexpected defect's payload.
    Bug(B),
}

/// The display form of the optional location clause: empty when no location
/// was captured.
pub open spec fn loc_clause(loc: Option<Location>) -> Seq<char> {
    match loc {
        None => Seq::empty(),
        Some(l) => "(in "@ + loc_display(l@) + ")"@,
    }
}

/// The fixed two-line hint shown when no interface to share the project
/// could be determined.
pub open spec fn unsharable_message() -> Seq<char> {
    "Couldn't determine any interface to share the project to.\nHint: the SSH Keys is restricted to your local networks, which renders the key useless with no allowed source address."@
}

/// The fixed message shown for an unexpected defect, asking for a bug
/// report.
pub open spec fn bug_message() -> Seq<char> {
    "Unhandled termination. We would appreciate a bug report for this"@
}

/// The display form of an error.
pub open spec fn error_display<B>(e: Error<B>) -> Seq<char> {
    match e {
        Error::IoOperation { source, op, loc } => "IO error while "@ + op_display(op@) + ": "@
            + source.message_view() + loc_clause(loc),
        Error::UnknownSshKeytype(name) => "Unknown SSH key type: "@ + name@,
        Error::UnsharableProject => unsharable_message(),
        Error::Bug(_) => bug_message(),
    }
}

/// The cause chain of an error, rendered: the error's own display form
/// followed by the message of each link reached through `source`, outermost
/// first. Every variant but `IoOperation` is a chain terminal.
pub open spec fn error_chain<B>(e: Error<B>) -> Seq<Seq<char>> {
    match e {
        Error::IoOperation { source, .. } => seq![error_display(e)] + source.chain(),
        _ => seq![error_display(e)],
    }
}

/// The chain link `n` steps below an error, if the chain reaches that deep.
pub open spec fn error_walk<B>(e: Error<B>, n: nat) -> Option<SourceError> {
    match e {
        Error::IoOperation { source, .. } => source.walk(n),
        _ => None,
    }
}

/// The cause-chain walk below an error terminates: the link `n` steps below
/// it exists exactly when `n + 1` is under the rendered chain's length, so
/// after at most `error_chain(e).len()` steps the walk yields nothing more.
pub proof fn lemma_source_walk_terminates<B>(e: Error<B>, n: nat)
    ensures
        error_walk(e, n) is Some <==> n + 1 < error_chain(e).len(),
{
    match e {
        Error::IoOperation { source, .. } => {
            lemma_cause_walk_terminates(*source, n);
        },
        _ => {},
    }
}

impl<B> Error<B> {
    /// Converts an opaque unexpected-defect payload into [`Error::Bug`].
    pub fn bug(payload: B) -> (r: Error<B>)
        ensures
            r matches Error::Bug(p) && p == payload,
    {
        Error::Bug(payload)
    }

    /// The human-readable description of this error.
    pub fn display(&self) -> (r: String)
        ensures
            r@ == error_display(*self),
    {
        match self {
            Error::IoOperation { source, op, loc } => {
                let mut s = "IO error while ".to_owned();
                let op_text = op.display();
                s.append(op_text.as_str());
                s.append(": ");
                s.append(source.message.as_str());
                match loc {
                    None => {
                        proof {
                            assert(s@ + Seq::<char>::empty() =~= s@);
                        }
                    },
                    Some(l) => {
                        s.append("(in ");
                        let loc_text = l.display();
                        s.append(loc_text.as_str());
                        s.append(")");
                    },
                }
                s
            },
            Error::UnknownSshKeytype(name) => {
                let mut s = "Unknown SSH key type: ".to_owned();
                s.append(name.as_str());
                s
            },
            Error::UnsharableProject => {
                "Couldn't determine any interface to share the project to.\nHint: the SSH Keys is restricted to your local networks, which renders the key useless with no allowed source address.".to_owned()
            },
            Error::Bug(_) => {
                "Unhandled termination. We would appreciate a bug report for this".to_owned()
            },
        }
    }

    /// The next link of the cause chain: the wrapped lower-level error for
    /// [`Error::IoOperation`], nothing for the other variants (chain
    /// terminals).
    pub fn source(&self) -> (r: Option<&SourceError>)
        ensures
            *self matches Error::IoOperation { source, .. } ==> r matches Some(s) && *s == source,
            !(*self is IoOperation) ==> r is None,
    {
        match self {
            Error::IoOperation { source, .. } => Some(&**source),
            _ => None,
        }
    }
}

/// A capture factory: binds one operation, and the call site at which the
/// factory was made, to a reusable error-wrapping step.
pub struct Capture {
    op: Operation,
    loc: Option<Location>,
}

impl Capture {
    /// The operation this factory tags errors with.
    pub closed spec fn op(self) -> OpView {
        self.op@
    }

    /// The call site recorded when the factory was made, if diagnostics
    /// were enabled then.
    pub closed spec fn loc(self) -> Option<LocView> {
        opt_loc_view(self.loc)
    }

    /// Wraps a lower-level error, moving it in, into an
    /// [`Error::IoOperation`] tagged with the bound operation and the
    /// recorded call site.
    pub fn apply<B>(&self, source: SourceError) -> (r: Error<B>)
        ensures
            r matches Error::IoOperation { source: src, op, loc } && src == source && op@
                == self.op() && opt_loc_view(loc) == self.loc(),
    {
        let loc = match &self.loc {
            None => None,
            Some(l) => Some(l.clone()),
        };
        Error::IoOperation { source: Box::new(source), op: self.op.clone(), loc }
    }
}

impl Operation {
    /// Binds this operation into a capture factory.
    ///
    /// `loc` is the call site to record: a diagnostics-enabled caller
    /// passes its current location and any other passes `None`, so a
    /// factory carries a location exactly when diagnostics are enabled.
    pub fn capture(&self, loc: Option<Location>) -> (c: Capture)
        ensures
            c.op() == self@,
            c.loc() == opt_loc_view(loc),
    {
        Capture { op: self.clone(), loc }
    }
}

/// The display form of a wrapped lower-level failure contains the display
/// form of its operation as a substring, right after the fixed prefix.
pub proof fn lemma_io_display_contains_op<B>(e: Error<B>)
    requires
        e is IoOperation,
    ensures
        error_display(e).len() >= 15 + op_display(e->op@).len(),
        error_display(e).subrange(15, 15 + op_display(e->op@).len() as int) == op_display(
            e->op@,
        ),
{
    reveal_strlit("IO error while ");
    let d = error_display(e);
    let o = op_display(e->op@);
    assert(d.subrange(15, 15 + o.len() as int) =~= o);
}

} // verus!
