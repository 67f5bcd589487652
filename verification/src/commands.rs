//! The command registry: a line beginning with the command prefix `?` is
//! parsed into a request for an action. Two commands exist: `send` starts a
//! chunked file transfer and `msg` sends a whisper.
//!
//! Argument splitting follows shell quoting rules, through `shellwords`;
//! the file argument of `send` goes through `shellexpand`, whose outcome
//! depends on the environment and is therefore never pinned down here.

use vstd::prelude::*;
use vstd::string::StrSliceExecFns;
use vstd::string::StringExecFns;

use crate::action::SendWhisper;
use crate::util::{Error, ErrorKind};

verus! {

/// What `shellwords::split` returns on a line: its words, or nothing when
/// the line holds mismatched quotes.
pub uninterp spec fn shell_split(s: Seq<char>) -> Option<Seq<Seq<char>>>;

/// Relies on `shellwords::split`: splits a line into words under shell
/// quoting rules; mismatched quotes are the one error.
#[verifier::external_body]
fn shell_split_words(s: &str) -> (r: Option<Vec<String>>)
    ensures
        r is Some <==> shell_split(s@) is Some,
        r matches Some(v) ==> (shell_split(s@) matches Some(ws) && v.deep_view() == ws),
{
    match shellwords::split(s) {
        Ok(v) => Some(v),
        Err(_) => None,
    }
}

/// Relies on `shellexpand::full`: expands `~` and environment variables in
/// a path. The result depends on the environment, so nothing is promised of
/// it; an undefined variable is the error case, reported as its text.
#[verifier::external_body]
fn expand_path(s: &str) -> (r: Result<String, String>)
{
    match shellexpand::full(s) {
        Ok(p) => Ok(p.into_owned()),
        Err(e) => Err(format!("{}", e)),
    }
}

/// Exact string comparison.
fn str_eq(a: &str, b: &str) -> (r: bool)
    ensures
        r == (a@ == b@),
{
    let sa: String = String::from_str(a);
    let sb: String = String::from_str(b);
    sa == sb
}

/// The word separators a command line is cut at.
pub open spec fn is_sep(c: char) -> bool {
    c == ' ' || c == '\t'
}

fn is_sep_exec(c: char) -> (r: bool)
    ensures
        r == is_sep(c),
{
    c == ' ' || c == '\t'
}

/// The index of the first separator at or after `i`, or the line's end.
pub open spec fn token_end(input: Seq<char>, i: int) -> int
    decreases input.len() - i,
{
    if i < 0 || i >= input.len() {
        i
    } else if is_sep(input[i]) {
        i
    } else {
        token_end(input, i + 1)
    }
}

/// A line is a command when it starts with the prefix `?`.
pub open spec fn is_command_line(input: Seq<char>) -> bool {
    input.len() > 0 && input[0] == '?'
}

/// The command name of a command line: what stands between the prefix and
/// the first separator.
pub open spec fn command_token(input: Seq<char>) -> Seq<char> {
    input.subrange(1, token_end(input, 1))
}

/// The argument text of a command line: what follows the first separator,
/// or nothing when there is none.
pub open spec fn command_rest(input: Seq<char>) -> Seq<char> {
    if token_end(input, 1) < input.len() {
        input.subrange(token_end(input, 1) + 1, input.len() as int)
    } else {
        Seq::empty()
    }
}

/// Words joined by single spaces.
pub open spec fn join_spaces(ws: Seq<Seq<char>>) -> Seq<char>
    decreases ws.len(),
{
    if ws.len() == 0 {
        Seq::empty()
    } else if ws.len() == 1 {
        ws[0]
    } else {
        join_spaces(ws.drop_last()) + seq![' '] + ws.last()
    }
}

/// The file name of a path: its longest suffix free of `/`.
pub open spec fn after_last_slash(path: Seq<char>) -> Seq<char>
    decreases path.len(),
{
    if path.len() == 0 {
        Seq::<char>::empty()
    } else if path.last() == '/' {
        Seq::<char>::empty()
    } else {
        after_last_slash(path.drop_last()).push(path.last())
    }
}

proof fn lemma_after_last_slash(path: Seq<char>, j: int)
    requires
        0 <= j <= path.len(),
        forall|k: int| j <= k < path.len() ==> path[k] != '/',
        j > 0 ==> path[j - 1] == '/',
    ensures
        after_last_slash(path) == path.subrange(j, path.len() as int),
    decreases path.len(),
{
    if j == path.len() {
        assert(path.subrange(j, path.len() as int) =~= Seq::<char>::empty());
    } else {
        assert(path.last() != '/');
        lemma_after_last_slash(path.drop_last(), j);
        assert(path.drop_last().subrange(j, path.drop_last().len() as int).push(path.last())
            =~= path.subrange(j, path.len() as int));
    }
}

/// Extracts the file name of a path: the part after the last `/`. An empty
/// name, or one that is only the parent reference `..`, yields nothing.
pub fn file_name_of(path: &str) -> (r: Option<String>)
    ensures
        (after_last_slash(path@).len() == 0 || after_last_slash(path@) == ".."@) <==> r is None,
        r matches Some(name) ==> name@ == after_last_slash(path@),
{
    let n = path.unicode_len();
    let mut j: usize = n;
    while j > 0 && path.get_char(j - 1) != '/'
        invariant
            j <= n,
            n == path@.len(),
            forall|k: int| j <= k < n ==> path@[k] != '/',
        decreases j,
    {
        j = j - 1;
    }
    let name = path.substring_char(j, n);
    proof {
        lemma_after_last_slash(path@, j as int);
    }
    if name.unicode_len() == 0 {
        None
    } else if str_eq(name, "..") {
        None
    } else {
        Some(String::from_str(name))
    }
}

/// A request produced by a recognized command: open a file so a transfer
/// action can be built, or whisper right away.
pub enum CommandRequest {
    Whisper(SendWhisper),
    OpenFile { from: String, to: String, path: String },
}

/// The outcome a whisper command owes for the words `ws`: a request on two
/// or more words, the exact missing-argument error otherwise.
pub open spec fn whisper_parse_ok(
    r: Result<CommandRequest, Error>,
    user: Seq<char>,
    ws: Seq<Seq<char>>,
) -> bool {
    if ws.len() == 0 {
        match r {
            Err(e) => e.kind == ErrorKind::CommandParse && e.text@ == "No transfer target"@,
            _ => false,
        }
    } else if ws.len() == 1 {
        match r {
            Err(e) => e.kind == ErrorKind::CommandParse && e.text@ == "Content is blank"@,
            _ => false,
        }
    } else {
        match r {
            Ok(CommandRequest::Whisper(w)) => w.from@ == user && w.to@ == ws[0] && w.content@
                == join_spaces(ws.skip(1)),
            _ => false,
        }
    }
}

/// The outcome a file-send command owes for the words `ws`. The path the
/// request carries comes out of the environment-dependent expansion, so
/// only the addressing is pinned; a failed expansion is a parse error.
pub open spec fn send_parse_ok(
    r: Result<CommandRequest, Error>,
    user: Seq<char>,
    ws: Seq<Seq<char>>,
) -> bool {
    if ws.len() == 0 {
        match r {
            Err(e) => e.kind == ErrorKind::CommandParse && e.text@ == "No transfer target"@,
            _ => false,
        }
    } else if ws.len() == 1 {
        match r {
            Err(e) => e.kind == ErrorKind::CommandParse && e.text@ == "No file specified"@,
            _ => false,
        }
    } else {
        match r {
            Ok(CommandRequest::OpenFile { from, to, path: _ }) => from@ == user && to@ == ws[0],
            Err(e) => e.kind == ErrorKind::CommandParse,
            _ => false,
        }
    }
}

/// The `msg` command: first word the addressee, the rest the text.
pub struct SendWhisperCommand;

impl SendWhisperCommand {
    /// The prefix token this command answers to.
    pub fn name(&self) -> (r: &'static str)
        ensures
            r@ == "msg"@,
    {
        "msg"
    }

    /// Parses the split words of a `msg` command into a whisper request.
    pub fn parse_params(&self, user: &str, params: &Vec<String>) -> (r: Result<
        CommandRequest,
        Error,
    >)
        ensures
            whisper_parse_ok(r, user@, params.deep_view()),
    {
        let ghost ws = params.deep_view();
        if params.len() == 0 {
            return Err(Error::new(ErrorKind::CommandParse, "No transfer target".to_owned()));
        }
        if params.len() == 1 {
            return Err(Error::new(ErrorKind::CommandParse, "Content is blank".to_owned()));
        }
        let mut content: String = params[1].clone();
        proof {
            assert(ws.skip(1).subrange(0, 1) =~= seq![ws[1]]);
            assert(join_spaces(seq![ws[1]]) == ws[1]);
            assert(content@ == join_spaces(ws.skip(1).subrange(0, 1)));
        }
        let mut i: usize = 2;
        while i < params.len()
            invariant
                2 <= i <= params@.len(),
                ws == params.deep_view(),
                ws.len() == params@.len(),
                content@ == join_spaces(ws.skip(1).subrange(0, i - 1)),
            decreases params@.len() - i,
        {
            content.append(" ");
            content.append(params[i].as_str());
            proof {
                reveal_strlit(" ");
                let part = ws.skip(1).subrange(0, i - 1 as int);
                let part2 = ws.skip(1).subrange(0, i as int);
                assert(part2.drop_last() =~= part);
                assert(part2.last() == ws[i as int]);
                assert(params@[i as int]@ == ws[i as int]);
            }
            i = i + 1;
        }
        proof {
            assert(ws.skip(1).subrange(0, ws.skip(1).len() as int) =~= ws.skip(1));
        }
        let w = SendWhisper { from: user.to_owned(), to: params[0].clone(), content };
        Ok(CommandRequest::Whisper(w))
    }
}

/// The `send` command: first word the addressee, second the file path.
pub struct SendFileCommand;

impl SendFileCommand {
    /// The prefix token this command answers to.
    pub fn name(&self) -> (r: &'static str)
        ensures
            r@ == "send"@,
    {
        "send"
    }

    /// Parses the split words of a `send` command into an open-file
    /// request, expanding the path.
    pub fn parse_params(&self, user: &str, params: &Vec<String>) -> (r: Result<
        CommandRequest,
        Error,
    >)
        ensures
            send_parse_ok(r, user@, params.deep_view()),
    {
        if params.len() == 0 {
            return Err(Error::new(ErrorKind::CommandParse, "No transfer target".to_owned()));
        }
        if params.len() == 1 {
            return Err(Error::new(ErrorKind::CommandParse, "No file specified".to_owned()));
        }
        match expand_path(params[1].as_str()) {
            Ok(path) => Ok(
                CommandRequest::OpenFile { from: user.to_owned(), to: params[0].clone(), path },
            ),
            Err(text) => Err(Error::new(ErrorKind::CommandParse, text)),
        }
    }
}

/// What `find_command_action` owes: nothing for a line without the prefix
/// or with an unrecognized command name; otherwise the recognized command's
/// outcome on the shell-split arguments, with mismatched quotes as a parse
/// error.
pub open spec fn find_ok(
    r: Option<Result<CommandRequest, Error>>,
    user: Seq<char>,
    input: Seq<char>,
) -> bool {
    if !is_command_line(input) {
        r is None
    } else if command_token(input) == "send"@ || command_token(input) == "msg"@ {
        match shell_split(command_rest(input)) {
            Some(ws) => match r {
                Some(res) => if command_token(input) == "send"@ {
                    send_parse_ok(res, user, ws)
                } else {
                    whisper_parse_ok(res, user, ws)
                },
                None => false,
            },
            None => match r {
                Some(Err(e)) => e.kind == ErrorKind::CommandParse && e.text@
                    == "Mismatched quotes"@,
                _ => false,
            },
        }
    } else {
        r is None
    }
}

/// The command registry. Each command is dispatched by its name token; the
/// two commands of the protocol are built in.
pub struct CommandManager;

impl CommandManager {
    pub fn new() -> (r: CommandManager)
    {
        CommandManager
    }

    /// Tries to read `input` as a command: `None` when the line does not
    /// start with `?` or names no known command; otherwise the command's
    /// parse outcome on the shell-split argument text.
    pub fn find_command_action(&self, input: &str, user: &str) -> (r: Option<
        Result<CommandRequest, Error>,
    >)
        ensures
            find_ok(r, user@, input@),
    {
        let n = input.unicode_len();
        if n == 0 {
            return None;
        }
        if input.get_char(0) != '?' {
            return None;
        }
        let mut i: usize = 1;
        while i < n && !is_sep_exec(input.get_char(i))
            invariant
                1 <= i <= n,
                n == input@.len(),
                token_end(input@, 1) == token_end(input@, i as int),
            decreases n - i,
        {
            i = i + 1;
        }
        proof {
            assert(token_end(input@, 1) == i as int);
        }
        let first = input.substring_char(1, i);
        let rest = if i < n {
            input.substring_char(i + 1, n)
        } else {
            input.substring_char(n, n)
        };
        proof {
            assert(first@ == command_token(input@));
            if i < n {
                assert(rest@ == command_rest(input@));
            } else {
                assert(rest@ =~= command_rest(input@));
            }
        }
        let is_send = str_eq(first, "send");
        let is_msg = str_eq(first, "msg");
        if !is_send && !is_msg {
            return None;
        }
        match shell_split_words(rest) {
            None => Some(
                Err(Error::new(ErrorKind::CommandParse, "Mismatched quotes".to_owned())),
            ),
            Some(params) => {
                if is_send {
                    Some(SendFileCommand.parse_params(user, &params))
                } else {
                    Some(SendWhisperCommand.parse_params(user, &params))
                }
            },
        }
    }
}

} // verus!
