use vstd::prelude::*;

verus! {

/// The kinds of message that an agent prints on the command line.
#[derive(PartialEq, Eq, Structural, Debug, Clone, Copy)]
pub enum PrintCommand {
    AICall,
    UnitTest,
    Issue,
}

/// The terminal colours that the command line uses.
#[derive(PartialEq, Eq, Structural, Debug, Clone, Copy)]
pub enum TermColor {
    Green,
    Cyan,
    Magenta,
    Red,
    Blue,
}

/// What an agent message shows: a label naming the agent, in green, followed
/// by the statement in the colour of its kind.
pub struct AgentMessage {
    pub label: String,
    pub label_color: TermColor,
    pub statement: String,
    pub statement_color: TermColor,
}

impl PrintCommand {
    /// The colour in which a statement of this kind is shown.
    pub open spec fn color_of(self) -> TermColor {
        match self {
            PrintCommand::AICall => TermColor::Cyan,
            PrintCommand::UnitTest => TermColor::Magenta,
            PrintCommand::Issue => TermColor::Red,
        }
    }

    /// The colour in which a statement of this kind is shown.
    pub fn statement_color(&self) -> (color: TermColor)
        ensures
            color == self.color_of(),
            *self == PrintCommand::AICall ==> color == TermColor::Cyan,
            *self == PrintCommand::UnitTest ==> color == TermColor::Magenta,
            *self == PrintCommand::Issue ==> color == TermColor::Red,
    {
        match self {
            PrintCommand::AICall => TermColor::Cyan,
            PrintCommand::UnitTest => TermColor::Magenta,
            PrintCommand::Issue => TermColor::Red,
        }
    }

    /// The text and colours of the message that an agent at `agend_pos`
    /// prints when it states `agent_statement`.
    pub fn agent_message(&self, agend_pos: &str, agent_statement: &str) -> (msg: AgentMessage)
        ensures
            msg.label@ == "Agent : "@ + agend_pos@ + "  "@,
            msg.label_color == TermColor::Green,
            msg.statement@ == agent_statement@,
            msg.statement_color == self.color_of(),
    {
        let label = String::from_str("Agent : ").concat(agend_pos).concat("  ");
        AgentMessage {
            label,
            label_color: TermColor::Green,
            statement: String::from_str(agent_statement),
            statement_color: self.statement_color(),
        }
    }
}

/// Each kind of statement has its own colour: AI calls cyan, unit tests
/// magenta, issues red; the label is always green, a colour no statement
/// has.
pub proof fn lemma_statement_colors(command: PrintCommand)
    ensures
        command == PrintCommand::AICall <==> command.color_of() == TermColor::Cyan,
        command == PrintCommand::UnitTest <==> command.color_of() == TermColor::Magenta,
        command == PrintCommand::Issue <==> command.color_of() == TermColor::Red,
        command.color_of() != TermColor::Green,
{
}

/// Unicode's White_Space property, which is what `char::is_whitespace` tests.
pub open spec fn is_white_space(c: char) -> bool {
    let n: u32 = c as u32;
    ||| 0x9 <= n <= 0xD
    ||| n == 0x20
    ||| n == 0x85
    ||| n == 0xA0
    ||| n == 0x1680
    ||| 0x2000 <= n <= 0x200A
    ||| n == 0x2028
    ||| n == 0x2029
    ||| n == 0x202F
    ||| n == 0x205F
    ||| n == 0x3000
}

/// The white space characters are exactly the tab, line feed, vertical tab,
/// form feed, carriage return, space, next line, no-break space, Ogham space
/// mark, the eleven spaces from en quad to hair space, line and paragraph
/// separators, narrow no-break space, medium mathematical space and
/// ideographic space.
pub proof fn lemma_white_space_chars(c: char)
    ensures
        is_white_space(c) <==> (c == '\t' || c == '\n' || c == '\u{0B}' || c == '\u{0C}' || c
            == '\r' || c == ' ' || c == '\u{85}' || c == '\u{A0}' || c == '\u{1680}' || c
            == '\u{2000}' || c == '\u{2001}' || c == '\u{2002}' || c == '\u{2003}' || c
            == '\u{2004}' || c == '\u{2005}' || c == '\u{2006}' || c == '\u{2007}' || c
            == '\u{2008}' || c == '\u{2009}' || c == '\u{200A}' || c == '\u{2028}' || c
            == '\u{2029}' || c == '\u{202F}' || c == '\u{205F}' || c == '\u{3000}'),
{
}

/// `s` without its leading white space.
pub open spec fn trim_start(s: Seq<char>) -> Seq<char>
    decreases s.len(),
{
    if s.len() > 0 && is_white_space(s[0]) {
        trim_start(s.drop_first())
    } else {
        s
    }
}

/// `s` without its trailing white space.
pub open spec fn trim_end(s: Seq<char>) -> Seq<char>
    decreases s.len(),
{
    if s.len() > 0 && is_white_space(s.last()) {
        trim_end(s.drop_last())
    } else {
        s
    }
}

/// `s` without its leading and trailing white space.
pub open spec fn trimmed(s: Seq<char>) -> Seq<char> {
    trim_end(trim_start(s))
}

fn is_white_space_char(c: char) -> (b: bool)
    ensures
        b == is_white_space(c),
{
    let n: u32 = c as u32;
    (0x9 <= n && n <= 0xD) || n == 0x20 || n == 0x85 || n == 0xA0 || n == 0x1680 || (0x2000 <= n
        && n <= 0x200A) || n == 0x2028 || n == 0x2029 || n == 0x202F || n == 0x205F || n == 0x3000
}

/// The answer that a user typed, without the white space (and the line end)
/// around it.
pub fn trim_response(raw: &str) -> (answer: String)
    ensures
        answer@ == trimmed(raw@),
{
    let n: usize = raw.unicode_len();
    let mut i: usize = 0;
    assert(raw@.subrange(0, n as int) =~= raw@);
    while i < n && is_white_space_char(raw.get_char(i))
        invariant
            i <= n,
            n == raw@.len(),
            trim_start(raw@) == trim_start(raw@.subrange(i as int, n as int)),
        decreases n - i,
    {
        assert(raw@.subrange(i as int, n as int).drop_first() =~= raw@.subrange(
            i + 1,
            n as int,
        ));
        i = i + 1;
    }
    let ghost rest = raw@.subrange(i as int, n as int);
    assert(trim_start(rest) == rest);
    let mut j: usize = n;
    assert(rest.subrange(0, (n - i) as int) =~= rest);
    while j > i && is_white_space_char(raw.get_char(j - 1))
        invariant
            i <= j <= n,
            n == raw@.len(),
            rest == raw@.subrange(i as int, n as int),
            trim_end(rest) == trim_end(raw@.subrange(i as int, j as int)),
        decreases j,
    {
        assert(raw@.subrange(i as int, j as int).drop_last() =~= raw@.subrange(
            i as int,
            j - 1,
        ));
        j = j - 1;
    }
    assert(trim_end(raw@.subrange(i as int, j as int)) == raw@.subrange(i as int, j as int));
    String::from_str(raw.substring_char(i, j))
}

proof fn lemma_trim_start_shape(s: Seq<char>)
    ensures
        exists|i: int|
            0 <= i <= s.len() && trim_start(s) == s.subrange(i, s.len() as int) && forall|k: int|
                0 <= k < i ==> is_white_space(#[trigger] s[k]),
        trim_start(s).len() > 0 ==> !is_white_space(trim_start(s)[0]),
    decreases s.len(),
{
    if s.len() > 0 && is_white_space(s[0]) {
        let r = s.drop_first();
        lemma_trim_start_shape(r);
        let i = choose|i: int|
            0 <= i <= r.len() && trim_start(r) == r.subrange(i, r.len() as int) && forall|k: int|
                0 <= k < i ==> is_white_space(#[trigger] r[k]);
        assert(r.subrange(i, r.len() as int) =~= s.subrange(i + 1, s.len() as int));
        assert forall|k: int| 0 <= k < i + 1 implies is_white_space(#[trigger] s[k]) by {
            if k > 0 {
                assert(s[k] == r[k - 1]);
            }
        }
    } else {
        assert(s.subrange(0, s.len() as int) =~= s);
    }
}

proof fn lemma_trim_end_shape(s: Seq<char>)
    ensures
        exists|j: int|
            0 <= j <= s.len() && trim_end(s) == s.subrange(0, j) && forall|k: int|
                j <= k < s.len() ==> is_white_space(#[trigger] s[k]),
        trim_end(s).len() > 0 ==> !is_white_space(trim_end(s).last()),
    decreases s.len(),
{
    if s.len() > 0 && is_white_space(s.last()) {
        let r = s.drop_last();
        lemma_trim_end_shape(r);
        let j = choose|j: int|
            0 <= j <= r.len() && trim_end(r) == r.subrange(0, j) && forall|k: int|
                j <= k < r.len() ==> is_white_space(#[trigger] r[k]);
        assert(r.subrange(0, j) =~= s.subrange(0, j));
        assert forall|k: int| j <= k < s.len() implies is_white_space(#[trigger] s[k]) by {
            if k < s.len() - 1 {
                assert(s[k] == r[k]);
            }
        }
    } else {
        assert(s.subrange(0, s.len() as int) =~= s);
    }
}

/// A trimmed answer is the raw text with only white space taken from its
/// two ends: a run of the text, everything before and after which is white
/// space, with no white space at either of its own ends; trimming it again
/// changes nothing.
pub proof fn lemma_trimmed_answer(s: Seq<char>)
    ensures
        exists|i: int, j: int|
            0 <= i <= j <= s.len() && trimmed(s) == s.subrange(i, j) && (forall|k: int|
                0 <= k < i ==> is_white_space(#[trigger] s[k])) && (forall|k: int|
                j <= k < s.len() ==> is_white_space(#[trigger] s[k])),
        trimmed(s).len() > 0 ==> !is_white_space(trimmed(s)[0]) && !is_white_space(
            trimmed(s).last(),
        ),
        trimmed(trimmed(s)) == trimmed(s),
{
    let t = trim_start(s);
    lemma_trim_start_shape(s);
    lemma_trim_end_shape(t);
    let i = choose|i: int|
        0 <= i <= s.len() && t == s.subrange(i, s.len() as int) && forall|k: int|
            0 <= k < i ==> is_white_space(#[trigger] s[k]);
    let j = choose|j: int|
        0 <= j <= t.len() && trim_end(t) == t.subrange(0, j) && forall|k: int|
            j <= k < t.len() ==> is_white_space(#[trigger] t[k]);
    let u = trimmed(s);
    assert(u =~= s.subrange(i, i + j));
    assert forall|k: int| i + j <= k < s.len() implies is_white_space(#[trigger] s[k]) by {
        assert(s[k] == t[k - i]);
    }
    if u.len() > 0 {
        assert(u[0] == t[0]);
        assert(!is_white_space(u[0]));
        assert(trim_start(u) == u);
        assert(trim_end(u) == u);
    } else {
        assert(trim_start(u) == u);
        assert(trim_end(u) == u);
    }
}

} // verus!
