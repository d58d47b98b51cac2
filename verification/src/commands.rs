//! The commands that a user types at the client and at the service prompt.
use vstd::prelude::*;
use vstd::string::StrSliceExecFns;
use vstd::string::StringExecFns;

use crate::text::{is_text, push_char};

verus! {

/// Whether `c` has the Unicode `White_Space` property, which `char::is_whitespace`
/// reports: the controls U+0009 to U+000D, the space, U+0085, the no-break space,
/// U+1680, U+2000 to U+200A, the line and paragraph separators, U+202F, U+205F and
/// U+3000.
pub open spec fn char_is_whitespace(c: char) -> bool {
    let u = c as u32;
    ||| 0x9 <= u <= 0xD
    ||| u == 0x20
    ||| u == 0x85
    ||| u == 0xA0
    ||| u == 0x1680
    ||| 0x2000 <= u <= 0x200A
    ||| u == 0x2028
    ||| u == 0x2029
    ||| u == 0x202F
    ||| u == 0x205F
    ||| u == 0x3000
}

/// What parsing `s` as a UUID gives, as `Uuid::from_str` reports it: the UUID's
/// 128-bit value, or the text of the parse error.
pub uninterp spec fn uuid_from_str(s: Seq<char>) -> Result<u128, Seq<char>>;

/// Whether `c` is white space, as `char::is_whitespace` tells.
pub fn is_whitespace(c: char) -> (b: bool)
    ensures
        b == char_is_whitespace(c),
{
    let u = c as u32;
    (0x9 <= u && u <= 0xD) || u == 0x20 || u == 0x85 || u == 0xA0 || u == 0x1680 || (0x2000 <= u
        && u <= 0x200A) || u == 0x2028 || u == 0x2029 || u == 0x202F || u == 0x205F || u == 0x3000
}

/// Calls `Uuid::from_str` (and `Uuid::as_u128` on success, the error's `Display` on
/// failure).
#[verifier::external_body]
pub(crate) fn parse_uuid(s: &str) -> (r: Result<u128, String>)
    ensures
        match r {
            Ok(v) => uuid_from_str(s@) == Ok::<u128, Seq<char>>(v),
            Err(e) => uuid_from_str(s@) == Err::<u128, Seq<char>>(e@),
        },
{
    <uuid::Uuid as std::str::FromStr>::from_str(s).map(|u| u.as_u128()).map_err(|e| e.to_string())
}

/// The position of the first space in `s`, if any.
pub open spec fn first_space(s: Seq<char>) -> Option<int> {
    if exists|i: int| 0 <= i < s.len() && s[i] == ' ' {
        Some(choose|i: int| 0 <= i < s.len() && s[i] == ' ' && forall|j: int| 0 <= j < i ==> s[j] != ' ')
    } else {
        None
    }
}

/// The words of `s`: its maximal runs of characters that are not white space, in order.
pub open spec fn words(s: Seq<char>) -> Seq<Seq<char>>
    decreases s.len(),
{
    if s.len() == 0 {
        Seq::empty()
    } else {
        let w = words(s.drop_last());
        if char_is_whitespace(s.last()) {
            w
        } else if s.len() >= 2 && !char_is_whitespace(s[s.len() - 2]) {
            w.update(w.len() - 1, w.last().push(s.last()))
        } else {
            w.push(seq![s.last()])
        }
    }
}

proof fn lemma_words_nonempty(s: Seq<char>)
    requires
        s.len() > 0,
        !char_is_whitespace(s.last()),
    ensures
        words(s).len() > 0,
    decreases s.len(),
{
    if s.len() >= 2 && !char_is_whitespace(s[s.len() - 2]) {
        assert(s.drop_last().last() == s[s.len() - 2]);
        lemma_words_nonempty(s.drop_last());
    }
}

/// The words of `s`.
pub fn split_words(s: &str) -> (w: Vec<String>)
    ensures
        w@.map_values(|x: String| x@) == words(s@),
{
    let mut w: Vec<String> = Vec::new();
    let n = s.unicode_len();
    let mut i: usize = 0;
    let mut in_word = false;
    while i < n
        invariant
            n == s@.len(),
            i <= n,
            w@.map_values(|x: String| x@) == words(s@.take(i as int)),
            in_word == (i > 0 && !char_is_whitespace(s@[i - 1])),
        decreases n - i,
    {
        let c = s.get_char(i);
        let ghost before = w@.map_values(|x: String| x@);
        proof {
            assert(s@.take(i + 1).drop_last() =~= s@.take(i as int));
            assert(s@.take(i + 1).last() == c);
            if i > 0 {
                assert(s@.take(i + 1)[i - 1] == s@[i - 1]);
            }
        }
        if is_whitespace(c) {
            in_word = false;
        } else if in_word {
            proof {
                lemma_words_nonempty(s@.take(i as int));
            }
            let mut last = w.pop().unwrap();
            push_char(&mut last, c);
            w.push(last);
            proof {
                assert(w@.map_values(|x: String| x@) =~= before.update(
                    before.len() - 1,
                    before.last().push(c),
                ));
            }
        } else {
            let mut word = String::new();
            push_char(&mut word, c);
            w.push(word);
            proof {
                assert(w@.map_values(|x: String| x@) =~= before.push(seq![c]));
            }
            in_word = true;
        }
        i = i + 1;
    }
    proof {
        assert(s@.take(n as int) =~= s@);
    }
    w
}

/// The position of the first space in `s`.
fn find_space(s: &str) -> (r: Option<usize>)
    ensures
        r matches Some(i) ==> first_space(s@) == Some(i as int) && i < s@.len(),
        r is None ==> first_space(s@) is None,
{
    let n = s.unicode_len();
    let mut i: usize = 0;
    while i < n
        invariant
            n == s@.len(),
            i <= n,
            forall|j: int| 0 <= j < i ==> s@[j] != ' ',
        decreases n - i,
    {
        if s.get_char(i) == ' ' {
            proof {
                let k = choose|k: int| 0 <= k < s@.len() && s@[k] == ' ' && forall|j: int| 0 <= j < k ==> s@[j] != ' ';
                assert(0 <= k < s@.len() && s@[k] == ' ' && forall|j: int| 0 <= j < k ==> s@[j] != ' ') by {
                    assert(0 <= i < s@.len() && s@[i as int] == ' ' && forall|j: int| 0 <= j < i ==> s@[j] != ' ');
                }
                if k < i {
                } else if k > i {
                    assert(s@[i as int] != ' ');
                }
            }
            return Some(i);
        }
        i = i + 1;
    }
    None
}

/// An arithmetic call of the client prompt.
#[derive(PartialEq, Eq, Structural, Clone, Copy, Debug)]
pub enum ArithmeticOp {
    /// `sum`
    Sum,
    /// `mult`
    Multiply,
    /// `div`
    Divide,
}

/// A line typed at the client prompt.
#[derive(Debug)]
pub enum ClientCommand {
    /// Nothing was typed.
    Empty,
    /// `exit <anything>`
    Exit,
    /// `msg <text>`: the text after the first space.
    Message(String),
    /// `sum|mult|div <a> <b> ..`: the first two words after the command.
    Arithmetic(ArithmeticOp, String, String),
    /// `sum|mult|div` with fewer than two words after it.
    MissingOperands(ArithmeticOp),
    /// Anything else, such as a line without a space.
    Invalid,
}

/// The abstract value of a [`ClientCommand`].
pub enum ClientCommandView {
    Empty,
    Exit,
    Message(Seq<char>),
    Arithmetic(ArithmeticOp, Seq<char>, Seq<char>),
    MissingOperands(ArithmeticOp),
    Invalid,
}

impl View for ClientCommand {
    type V = ClientCommandView;

    open spec fn view(&self) -> ClientCommandView {
        match self {
            ClientCommand::Empty => ClientCommandView::Empty,
            ClientCommand::Exit => ClientCommandView::Exit,
            ClientCommand::Message(t) => ClientCommandView::Message(t@),
            ClientCommand::Arithmetic(op, a, b) => ClientCommandView::Arithmetic(*op, a@, b@),
            ClientCommand::MissingOperands(op) => ClientCommandView::MissingOperands(*op),
            ClientCommand::Invalid => ClientCommandView::Invalid,
        }
    }
}

/// The arithmetic call a command word names.
pub open spec fn arithmetic_op(cmd: Seq<char>) -> Option<ArithmeticOp> {
    if cmd == "sum"@ {
        Some(ArithmeticOp::Sum)
    } else if cmd == "mult"@ {
        Some(ArithmeticOp::Multiply)
    } else if cmd == "div"@ {
        Some(ArithmeticOp::Divide)
    } else {
        None
    }
}

/// The meaning of a line at the client prompt: the command is the text before the first
/// space and its argument the text after it; a line without a space is invalid.
pub open spec fn client_command(line: Seq<char>) -> ClientCommandView {
    if line.len() == 0 {
        ClientCommandView::Empty
    } else {
        match first_space(line) {
            None => ClientCommandView::Invalid,
            Some(i) => {
                let cmd = line.take(i);
                let args = line.skip(i + 1);
                if cmd == "exit"@ {
                    ClientCommandView::Exit
                } else if cmd == "msg"@ {
                    ClientCommandView::Message(args)
                } else {
                    match arithmetic_op(cmd) {
                        Some(op) => if words(args).len() >= 2 {
                            ClientCommandView::Arithmetic(op, words(args)[0], words(args)[1])
                        } else {
                            ClientCommandView::MissingOperands(op)
                        },
                        None => ClientCommandView::Invalid,
                    }
                }
            },
        }
    }
}

/// Whether `w` is one word: not empty, with no white space in it.
pub open spec fn is_plain_word(w: Seq<char>) -> bool {
    &&& w.len() > 0
    &&& forall|i: int| 0 <= i < w.len() ==> !char_is_whitespace(#[trigger] w[i])
}

proof fn lemma_words_append_word(s: Seq<char>, w: Seq<char>)
    requires
        is_plain_word(w),
        s.len() == 0 || char_is_whitespace(s.last()),
    ensures
        words(s + w) == words(s).push(w),
    decreases w.len(),
{
    if w.len() == 1 {
        assert((s + w).drop_last() =~= s);
        assert((s + w).last() == w[0]);
        if s.len() > 0 {
            assert((s + w)[(s + w).len() - 2] == s.last());
        }
        assert(seq![w[0]] =~= w);
    } else {
        let v = w.drop_last();
        assert(is_plain_word(v)) by {
            assert forall|i: int| 0 <= i < v.len() implies !char_is_whitespace(#[trigger] v[i]) by {
                assert(v[i] == w[i]);
            }
        }
        lemma_words_append_word(s, v);
        assert((s + w).drop_last() =~= s + v);
        assert((s + w).last() == w.last());
        assert(!char_is_whitespace(w[w.len() - 1]));
        assert((s + w)[(s + w).len() - 2] == w[w.len() - 2]);
        assert(!char_is_whitespace(w[w.len() - 2]));
        assert(v.push(w.last()) =~= w);
        assert(words(s).push(v).update(words(s).len() as int, v.push(w.last())) =~= words(s).push(w));
    }
}

proof fn lemma_first_space_at(s: Seq<char>, i: int)
    requires
        0 <= i < s.len(),
        s[i] == ' ',
        forall|j: int| 0 <= j < i ==> s[j] != ' ',
    ensures
        first_space(s) == Some(i),
{
    let k = choose|k: int| 0 <= k < s.len() && s[k] == ' ' && forall|j: int| 0 <= j < k ==> s[j] != ' ';
    assert(0 <= k < s.len() && s[k] == ' ' && forall|j: int| 0 <= j < k ==> s[j] != ' ');
    if k < i {
        assert(s[k] != ' ');
    } else if k > i {
        assert(s[i] != ' ');
    }
}

/// The operands of an arithmetic command are its first and second word, in that
/// order, whichever of `sum`, `mult` and `div` it is: `<cmd> <a> <b>` reads as that
/// call on `a` then `b`.
pub proof fn lemma_arithmetic_operands_in_order(cmd: Seq<char>, op: ArithmeticOp, a: Seq<char>, b: Seq<char>)
    requires
        (cmd == "sum"@ && op == ArithmeticOp::Sum) || (cmd == "mult"@ && op
            == ArithmeticOp::Multiply) || (cmd == "div"@ && op == ArithmeticOp::Divide),
        is_plain_word(a),
        is_plain_word(b),
    ensures
        client_command(cmd + " "@ + a + " "@ + b) == ClientCommandView::Arithmetic(op, a, b),
{
    reveal_strlit("sum");
    reveal_strlit("mult");
    reveal_strlit("div");
    reveal_strlit("exit");
    reveal_strlit("msg");
    reveal_strlit(" ");
    let line = cmd + " "@ + a + " "@ + b;
    let n = cmd.len() as int;
    assert(forall|j: int| 0 <= j < n ==> cmd[j] != ' ');
    assert forall|j: int| 0 <= j < n implies line[j] != ' ' by {
        assert(line[j] == cmd[j]);
    }
    assert(line[n] == ' ');
    lemma_first_space_at(line, n);
    assert(line.take(n) =~= cmd);
    let args = line.skip(n + 1);
    assert(args =~= a + " "@ + b);
    assert(cmd.len() >= 3 && cmd[0] != 'e' && cmd[1] != 's');
    assert("exit"@[0] == 'e');
    assert("msg"@[1] == 's');
    assert(cmd != "exit"@);
    assert(cmd != "msg"@);
    assert(arithmetic_op(cmd) == Some(op));
    lemma_words_append_word(Seq::<char>::empty(), a);
    assert(Seq::<char>::empty() + a =~= a);
    assert(words(Seq::<char>::empty()) =~= Seq::<Seq<char>>::empty());
    let a_sp = a + " "@;
    assert(a_sp.drop_last() =~= a);
    assert(a_sp.last() == ' ');
    assert(char_is_whitespace(' '));
    assert(words(a_sp) == words(a));
    lemma_words_append_word(a_sp, b);
    assert(words(args) =~= seq![a, b]);
}

/// Reads a line typed at the client prompt (without its line end).
pub fn parse_client_command(line: &str) -> (c: ClientCommand)
    ensures
        c@ == client_command(line@),
{
    let n = line.unicode_len();
    if n == 0 {
        return ClientCommand::Empty;
    }
    let i = match find_space(line) {
        Some(i) => i,
        None => return ClientCommand::Invalid,
    };
    let cmd = String::from_str(line.substring_char(0, i));
    let args = line.substring_char(i + 1, n);
    assert(args@ =~= line@.skip(i + 1));
    if is_text(&cmd, "exit") {
        ClientCommand::Exit
    } else if is_text(&cmd, "msg") {
        ClientCommand::Message(String::from_str(args))
    } else {
        let op = if is_text(&cmd, "sum") {
            ArithmeticOp::Sum
        } else if is_text(&cmd, "mult") {
            ArithmeticOp::Multiply
        } else if is_text(&cmd, "div") {
            ArithmeticOp::Divide
        } else {
            return ClientCommand::Invalid;
        };
        let mut w = split_words(args);
        if w.len() >= 2 {
            let b = w.remove(1);
            let a = w.remove(0);
            ClientCommand::Arithmetic(op, a, b)
        } else {
            ClientCommand::MissingOperands(op)
        }
    }
}

/// A line typed at the service prompt.
#[derive(Debug)]
pub enum ServerCommand {
    /// Nothing was typed.
    Empty,
    /// `kill <uuid>`: the connection to close, or why the UUID did not parse.
    Kill(Result<u128, String>),
    /// `list`
    List,
    /// Anything else.
    Ignore,
}

/// The abstract value of a [`ServerCommand`].
pub enum ServerCommandView {
    Empty,
    Kill(Result<u128, Seq<char>>),
    List,
    Ignore,
}

impl View for ServerCommand {
    type V = ServerCommandView;

    open spec fn view(&self) -> ServerCommandView {
        match self {
            ServerCommand::Empty => ServerCommandView::Empty,
            ServerCommand::Kill(Ok(v)) => ServerCommandView::Kill(Ok(*v)),
            ServerCommand::Kill(Err(e)) => ServerCommandView::Kill(Err(e@)),
            ServerCommand::List => ServerCommandView::List,
            ServerCommand::Ignore => ServerCommandView::Ignore,
        }
    }
}

/// The meaning of a line at the service prompt: `kill` followed by a space and a UUID,
/// or `list` on its own.
pub open spec fn server_command(line: Seq<char>) -> ServerCommandView {
    if line.len() == 0 {
        ServerCommandView::Empty
    } else {
        match first_space(line) {
            Some(i) => if line.take(i) == "kill"@ {
                ServerCommandView::Kill(uuid_from_str(line.skip(i + 1)))
            } else {
                ServerCommandView::Ignore
            },
            None => if line == "list"@ {
                ServerCommandView::List
            } else {
                ServerCommandView::Ignore
            },
        }
    }
}

/// Reads a line typed at the service prompt (without its line end).
pub fn parse_server_command(line: &str) -> (c: ServerCommand)
    ensures
        c@ == server_command(line@),
{
    let n = line.unicode_len();
    if n == 0 {
        return ServerCommand::Empty;
    }
    match find_space(line) {
        Some(i) => {
            let cmd = String::from_str(line.substring_char(0, i));
            if is_text(&cmd, "kill") {
                let arg = line.substring_char(i + 1, n);
                assert(arg@ =~= line@.skip(i + 1));
                ServerCommand::Kill(parse_uuid(arg))
            } else {
                ServerCommand::Ignore
            }
        },
        None => {
            if is_text(&String::from_str(line), "list") {
                ServerCommand::List
            } else {
                ServerCommand::Ignore
            }
        },
    }
}

} // verus!
