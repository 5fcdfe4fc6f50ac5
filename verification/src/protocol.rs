//! The two line protocols of the development module.
//!
//! The module reads its pipe for lines from build helpers: `BuildOutput NAME
//! TEXT...` and `BuildFinished NAME`, split into words as a shell would.
//! A build helper reads its standard input for `Run ESCAPED-SCRIPT` and `exit`,
//! split on single spaces, and writes the pipe lines above.
use vstd::prelude::*;

use crate::error::DevError;
use crate::text::{
    join_texts, joined, lemma_pieces_nonempty, law_rest_after_first_piece, pieces, same_text,
    split_text, text_of, unescape_newlines, unescape_newlines_text, has_char,
};

verus! {

#[verifier::external_type_specification]
#[verifier::external_body]
pub struct ExShellWordsParseError(shell_words::ParseError);

/// The words that `shell_words::split` makes of a line, or nothing where it
/// refuses the line.
pub uninterp spec fn shell_split(line: Seq<char>) -> Option<Seq<Seq<char>>>;

/// Calls `shell_words::split`, which splits a line into words the way a POSIX
/// shell does (quotes, backslash escapes, comments), and refuses a line with a
/// quote that is not closed. Claimed: its words, or its refusal, are
/// `shell_split` of the line.
#[verifier::external_body]
fn split_shell_words(line: &str) -> (r: Result<Vec<String>, shell_words::ParseError>)
    ensures
        r matches Ok(ws) ==> shell_split(line@) == Some(ws.deep_view()),
        r is Err ==> shell_split(line@) is None,
{
    shell_words::split(line)
}

/// What a line read from the module's pipe asks of the module.
#[derive(Debug, Clone, PartialEq, Eq)]
pub enum PipeEvent {
    /// Output of a build of the named buildable.
    BuildOutput { name: String, output: String },
    /// The build of the named buildable is over.
    BuildFinished { name: String },
    /// A line that is neither; it is reported and otherwise ignored.
    Invalid,
}

/// Word `i` of `ws`, or nothing when there are fewer words.
pub open spec fn word_or_empty(ws: Seq<Seq<char>>, i: int) -> Seq<char> {
    if 0 <= i < ws.len() {
        ws[i]
    } else {
        Seq::<char>::empty()
    }
}

/// The words of `ws` from word `i` on (none when there are fewer).
pub open spec fn words_from(ws: Seq<Seq<char>>, i: int) -> Seq<Seq<char>> {
    if i <= ws.len() {
        ws.skip(i)
    } else {
        Seq::<Seq<char>>::empty()
    }
}

/// `e` is the event that the words `ws` of a pipe line ask for.
pub open spec fn pipe_event_matches(e: PipeEvent, ws: Seq<Seq<char>>) -> bool {
    if ws.len() > 0 && ws[0] == "BuildOutput"@ {
        e matches PipeEvent::BuildOutput { name, output } && name@ == word_or_empty(ws, 1)
            && output@ == joined(words_from(ws, 2), " "@)
    } else if ws.len() > 0 && ws[0] == "BuildFinished"@ {
        e matches PipeEvent::BuildFinished { name } && name@ == word_or_empty(ws, 1)
    } else {
        e is Invalid
    }
}

/// The event that the words of a pipe line ask for.
pub fn classify_pipe_words(words: &Vec<String>) -> (e: PipeEvent)
    ensures
        pipe_event_matches(e, words.deep_view()),
{
    let n = words.len();
    if n == 0 {
        return PipeEvent::Invalid;
    }
    let name = if n > 1 {
        words[1].clone()
    } else {
        String::new()
    };
    if same_text(words[0].as_str(), "BuildOutput") {
        let from: usize = if n > 2 {
            2
        } else {
            n
        };
        let output = join_texts(words, from, " ");
        proof {
            if n < 2 {
                assert(words.deep_view().skip(n as int) =~= Seq::<Seq<char>>::empty());
            }
        }
        PipeEvent::BuildOutput { name, output }
    } else if same_text(words[0].as_str(), "BuildFinished") {
        PipeEvent::BuildFinished { name }
    } else {
        PipeEvent::Invalid
    }
}

/// Reads a line from the module's pipe: splits it as a shell would and says
/// what it asks for; refused when it has a quote that is never closed.
pub fn read_pipe_line(line: &str) -> (r: Result<PipeEvent, DevError>)
    ensures
        r is Err <==> shell_split(line@) is None,
        r matches Err(e) ==> e is UnbalancedQuotes,
        r matches Ok(e) ==> (shell_split(line@) matches Some(ws) && pipe_event_matches(e, ws)),
{
    match split_shell_words(line) {
        Ok(words) => Ok(classify_pipe_words(&words)),
        Err(_) => Err(DevError::UnbalancedQuotes),
    }
}

/// What a line on a build helper's standard input asks of it.
#[derive(Debug, Clone, PartialEq, Eq)]
pub enum HelperCommand {
    /// Run a script; `encoded` is the script as sent, with newlines written
    /// as `\n`, and `script` is the script with them restored.
    Run { encoded: String, script: String },
    /// Stop reading.
    Exit,
    /// Anything else; it is reported and otherwise ignored.
    Invalid,
}

/// `c` is what the helper line `line` asks for.
pub open spec fn helper_command_matches(c: HelperCommand, line: Seq<char>) -> bool {
    let ws = pieces(line, ' ');
    if ws[0] == "Run"@ {
        c matches HelperCommand::Run { encoded, script } && encoded@ == joined(
            ws.drop_first(),
            " "@,
        ) && script@ == unescape_newlines(encoded@)
    } else if ws[0] == "exit"@ {
        c is Exit
    } else {
        c is Invalid
    }
}

/// Reads a line of a build helper's standard input: its first word (up to the
/// first space) says what to do, and for `Run` the rest of the line is the
/// script, with `\n` escapes turned back into newlines.
pub fn parse_helper_line(line: &str) -> (c: HelperCommand)
    ensures
        helper_command_matches(c, line@),
{
    let words = split_text(line, ' ');
    proof {
        lemma_pieces_nonempty(line@, ' ');
    }
    if same_text(words[0].as_str(), "Run") {
        let encoded = join_texts(&words, 1, " ");
        let script = unescape_newlines_text(encoded.as_str());
        HelperCommand::Run { encoded, script }
    } else if same_text(words[0].as_str(), "exit") {
        HelperCommand::Exit
    } else {
        HelperCommand::Invalid
    }
}

/// Law: a `BuildOutput` pipe line loses no output: its second word is the
/// buildable's name and its output is all the words after that, joined by
/// single spaces; with exactly one word of output, the output is that word.
pub proof fn law_build_output_keeps_every_word(e: PipeEvent, ws: Seq<Seq<char>>)
    requires
        pipe_event_matches(e, ws),
        ws.len() >= 2,
        ws[0] == "BuildOutput"@,
    ensures
        e matches PipeEvent::BuildOutput { name, output } && name@ == ws[1] && output@ == joined(
            ws.skip(2),
            " "@,
        ),
        ws.len() == 3 ==> (e matches PipeEvent::BuildOutput { output, .. } && output@ == ws[2]),
        ws.len() == 2 ==> (e matches PipeEvent::BuildOutput { output, .. } && output@.len() == 0),
{
    if ws.len() == 3 {
        assert(ws.skip(2) =~= seq![ws[2]]);
    }
    if ws.len() == 2 {
        assert(ws.skip(2) =~= Seq::<Seq<char>>::empty());
    }
}

/// Law: a `BuildFinished` pipe line names the buildable in its second word.
pub proof fn law_build_finished_names_second_word(e: PipeEvent, ws: Seq<Seq<char>>)
    requires
        pipe_event_matches(e, ws),
        ws.len() >= 2,
        ws[0] == "BuildFinished"@,
    ensures
        e matches PipeEvent::BuildFinished { name } && name@ == ws[1],
{
    reveal_strlit("BuildFinished");
    reveal_strlit("BuildOutput");
    assert("BuildFinished"@ != "BuildOutput"@) by {
        assert("BuildFinished"@.len() != "BuildOutput"@.len());
    }
}

/// Law: the script a `Run` line carries (still escaped) is the text after the
/// line's first space, or nothing when the line has no space.
pub proof fn law_run_payload_is_rest_of_line(line: Seq<char>)
    ensures
        has_char(line, ' ') ==> exists|i: int|
            0 <= i < line.len() && line[i] == ' ' && (forall|j: int| 0 <= j < i ==> line[j] != ' ')
                && joined(pieces(line, ' ').drop_first(), " "@) == line.skip(i + 1),
        !has_char(line, ' ') ==> joined(pieces(line, ' ').drop_first(), " "@) == Seq::<
            char,
        >::empty(),
{
    reveal_strlit(" ");
    assert(" "@ =~= seq![' ']);
    law_rest_after_first_piece(line, ' ');
    if !has_char(line, ' ') {
        assert(pieces(line, ' ').drop_first() =~= Seq::<Seq<char>>::empty());
    }
}

/// The spec of the pipe line a helper writes when it receives a script.
pub open spec fn run_ack_line_spec(name: Seq<char>, encoded: Seq<char>) -> Seq<char> {
    "BuildOutput "@ + name + " dev module: got Run: "@ + encoded + "\n"@
}

/// The spec of the pipe line a helper writes when a build is over.
pub open spec fn finished_line_spec(name: Seq<char>) -> Seq<char> {
    "BuildFinished "@ + name + "\n"@
}

/// The spec of the pipe line a helper writes for a line of build output
/// (which still ends with its newline).
pub open spec fn output_line_spec(name: Seq<char>, line: Seq<char>) -> Seq<char> {
    "BuildOutput "@ + name + " "@ + line
}

/// The pipe line a helper writes when it receives a script.
pub fn run_ack_line(name: &str, encoded: &str) -> (r: String)
    ensures
        r@ == run_ack_line_spec(name@, encoded@),
{
    let mut r = text_of("BuildOutput ");
    r.append(name);
    r.append(" dev module: got Run: ");
    r.append(encoded);
    r.append("\n");
    r
}

/// The pipe line a helper writes when a build is over.
pub fn finished_line(name: &str) -> (r: String)
    ensures
        r@ == finished_line_spec(name@),
{
    let mut r = text_of("BuildFinished ");
    r.append(name);
    r.append("\n");
    r
}

/// The pipe line a helper writes for a line of build output.
pub fn output_line(name: &str, line: &str) -> (r: String)
    ensures
        r@ == output_line_spec(name@, line@),
{
    let mut r = text_of("BuildOutput ");
    r.append(name);
    r.append(" ");
    r.append(line);
    r
}

} // verus!
