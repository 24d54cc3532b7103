//! Commands addressed to the bot in pull request comments: finding the
//! mention, splitting the command from its arguments, building the command,
//! and reading a maintainer's score.
use vstd::prelude::*;

use crate::github::{AuthorAssociation, PrMetadata, RepoInfo, User, UtcNanos};
use crate::text::{
    chars_equal, chars_of, find, find_first, join_space, join_words, lowercase_of,
    push_char, push_str, split_whitespace, string_of, to_lowercase, words,
};

verus! {

/// A comment on a pull request, as far as the bot reads it.
#[derive(Debug, Clone)]
pub struct Comment {
    pub id: u64,
    pub user_login: String,
    pub author_association: AuthorAssociation,
    pub created_at: UtcNanos,
    pub body: Option<String>,
    pub body_html: Option<String>,
    pub body_text: Option<String>,
}

/// The text of a comment: the body, else its HTML, else its plain text.
pub open spec fn comment_text(c: Comment) -> Option<Seq<char>> {
    match c.body {
        Some(b) => Some(b@),
        None => match c.body_html {
            Some(h) => Some(h@),
            None => match c.body_text {
                Some(t) => Some(t@),
                None => None,
            },
        },
    }
}

/// How a comment addresses the bot: `@<bot> ` (with the trailing space).
pub open spec fn mention_of(bot_name: Seq<char>) -> Seq<char> {
    seq!['@'] + bot_name + seq![' ']
}

/// The command word and the space-joined arguments that follow the first
/// mention of the bot (`@<bot> `) in a text; two empty strings if nothing
/// follows; none if the text does not mention the bot.
pub open spec fn command_in(bot_name: Seq<char>, text: Seq<char>) -> Option<(Seq<char>, Seq<char>)> {
    match find_first(text, mention_of(bot_name)) {
        None => None,
        Some(p) => {
            let ws = words(text.skip(p + mention_of(bot_name).len()));
            if ws.len() == 0 {
                Some((Seq::empty(), Seq::empty()))
            } else {
                Some((ws[0], join_space(ws.drop_first())))
            }
        },
    }
}

/// The command word and the space-joined arguments that follow the first
/// mention of the bot in the lower-cased comment; none if the comment has
/// no text or no mention.
pub open spec fn extracted(bot_name: Seq<char>, c: Comment) -> Option<(Seq<char>, Seq<char>)> {
    match comment_text(c) {
        None => None,
        Some(t) => command_in(bot_name, lowercase_of(t)),
    }
}

fn comment_body(comment: &Comment) -> (res: Option<&String>)
    ensures
        match comment_text(*comment) {
            Some(t) => res matches Some(s) && s@ == t,
            None => res is None,
        },
{
    match &comment.body {
        Some(b) => Some(b),
        None => match &comment.body_html {
            Some(h) => Some(h),
            None => match &comment.body_text {
                Some(t) => Some(t),
                None => None,
            },
        },
    }
}

/// The command and arguments addressed to the bot in a text, as
/// `command_in` says (the text is read as it is, without changing case).
#[verifier::spinoff_prover]
pub fn command_in_text(bot_name: &str, text: &str) -> (res: Option<(String, String)>)
    ensures
        match res {
            Some((command, args)) => command_in(bot_name@, text@) == Some((command@, args@)),
            None => command_in(bot_name@, text@) is None,
        },
{
    let lower = chars_of(text);

    let mut mention: Vec<char> = Vec::new();
    mention.push('@');
    let bot = chars_of(bot_name);
    let mut k: usize = 0;
    while k < bot.len()
        invariant
            k <= bot.len(),
            mention@ == seq!['@'] + bot@.take(k as int),
        decreases bot.len() - k,
    {
        mention.push(bot[k]);
        k = k + 1;
        assert(bot@.take(k as int) =~= bot@.take(k - 1).push(bot@[k - 1]));
    }
    mention.push(' ');
    assert(bot@.take(bot.len() as int) =~= bot@);
    assert(mention@ =~= mention_of(bot_name@));

    let position = match find(&lower, &mention) {
        Some(p) => p,
        None => {
            return None;
        },
    };
    proof {
        crate::text::lemma_find_from(lower@, mention@, 0);
    }
    assert(crate::text::occurs_at(lower@, mention@, position as int));
    assert(position + mention@.len() <= lower@.len());
    assert(lower@.len() == lower.len() && mention@.len() == mention.len());
    let start: usize = position + mention.len();
    let mut rest: Vec<char> = Vec::new();
    let mut i: usize = start;
    while i < lower.len()
        invariant
            start <= i <= lower.len(),
            rest@ == lower@.subrange(start as int, i as int),
        decreases lower.len() - i,
    {
        rest.push(lower[i]);
        i = i + 1;
        assert(lower@.subrange(start as int, i as int) =~= lower@.subrange(
            start as int,
            i - 1,
        ).push(lower@[i - 1]));
    }
    assert(rest@ =~= lower@.skip(start as int));

    let commands = split_whitespace(&rest);
    if commands.len() == 0 {
        return Some((String::new(), String::new()));
    }
    let command = string_of(&commands[0]);
    let args = join_words(&commands, 1);
    proof {
        let ws = words(rest@);
        assert(commands@.skip(1).map_values(|w: Vec<char>| w@) =~= ws.drop_first());
    }
    Some((command, args))
}

/// The command and arguments addressed to the bot in a comment.
pub fn extract_command_with_args(bot_name: &str, comment: &Comment) -> (res: Option<
    (String, String),
>)
    ensures
        match res {
            Some((command, args)) => extracted(bot_name@, *comment) == Some((command@, args@)),
            None => extracted(bot_name@, *comment) is None,
        },
{
    let text = match comment_body(comment) {
        Some(t) => t,
        None => {
            return None;
        },
    };
    let lower = to_lowercase(text.as_str());
    command_in_text(bot_name, lower.as_str())
}

// ---------------------------------------------------------------------------
// Reading numbers.
// ---------------------------------------------------------------------------
/// Whether a character is an ASCII digit.
pub open spec fn is_digit(c: char) -> bool {
    48 <= (c as u32) <= 57
}

/// The value of a string of ASCII digits.
pub open spec fn digits_value(s: Seq<char>) -> nat
    decreases s.len(),
{
    if s.len() == 0 {
        0
    } else {
        digits_value(s.drop_last()) * 10 + ((s.last() as u32) - 48) as nat
    }
}

/// Whether every character is an ASCII digit.
pub open spec fn all_digits(d: Seq<char>) -> bool {
    forall|i: int| 0 <= i < d.len() ==> is_digit(#[trigger] d[i])
}

/// The text after an optional leading `+`.
pub open spec fn unsigned_part(s: Seq<char>) -> Seq<char> {
    if s.len() > 0 && s[0] == '+' {
        s.drop_first()
    } else {
        s
    }
}

/// What `str::parse::<u8>` accepts: an optional `+`, then at least one ASCII
/// digit, with a value below 256.
pub open spec fn parsed_u8(s: Seq<char>) -> Option<u8> {
    let d = unsigned_part(s);
    if d.len() > 0 && all_digits(d) && digits_value(d) <= 255 {
        Some(digits_value(d) as u8)
    } else {
        None
    }
}

proof fn lemma_digits_value_grows(s: Seq<char>, i: int, j: int)
    requires
        0 <= i <= j <= s.len(),
        forall|k: int| 0 <= k < s.len() ==> is_digit(#[trigger] s[k]),
    ensures
        digits_value(s.take(i)) <= digits_value(s.take(j)),
    decreases j - i,
{
    if i < j {
        lemma_digits_value_grows(s, i, j - 1);
        assert(s.take(j).drop_last() =~= s.take(j - 1));
    }
}

/// Reads a byte-sized number as `str::parse::<u8>` does.
pub fn parse_u8(s: &str) -> (res: Option<u8>)
    ensures
        res == parsed_u8(s@),
{
    let cs = chars_of(s);
    let start: usize = if cs.len() > 0 && cs[0] == '+' {
        1
    } else {
        0
    };
    let ghost d = unsigned_part(s@);
    assert(d =~= cs@.skip(start as int));
    if start >= cs.len() {
        return None;
    }
    let mut value: u32 = 0;
    let mut i: usize = start;
    while i < cs.len()
        invariant
            cs@ == s@,
            d == unsigned_part(s@),
            d == cs@.skip(start as int),
            start <= i <= cs.len(),
            forall|k: int| 0 <= k < i - start ==> is_digit(#[trigger] d[k]),
            value == digits_value(d.take(i - start)),
            value <= 255,
        decreases cs.len() - i,
    {
        let c = cs[i];
        let code = c as u32;
        let ghost k = i - start;
        assert(d[k] == c);
        if !(48 <= code && code <= 57) {
            assert(!is_digit(d[k]));
            assert(0 <= k < d.len());
            assert(!all_digits(d));
            return None;
        }
        let digit = code - 48;
        proof {
            assert(d.take(k + 1).drop_last() =~= d.take(k));
            assert(d.take(k + 1).last() == c);
            assert(digits_value(d.take(k + 1)) == digits_value(d.take(k)) * 10 + digit);
        }
        value = value * 10 + digit;
        i = i + 1;
        if value > 255 {
            proof {
                if all_digits(d) {
                    lemma_digits_value_grows(d, k + 1, d.len() as int);
                    assert(d.take(d.len() as int) =~= d);
                    assert(digits_value(d) > 255);
                }
            }
            return None;
        }
        assert forall|j: int| 0 <= j < i - start implies is_digit(#[trigger] d[j]) by {
            if j == k {
                assert(d[j] == c);
            }
        }
    }
    assert(d.take(d.len() as int) =~= d);
    Some(value as u8)
}

// ---------------------------------------------------------------------------
// Scores.
// ---------------------------------------------------------------------------
/// The scores a maintainer may give, in order.
pub open spec fn valid_scores() -> Seq<u8> {
    seq![0u8, 1u8, 2u8, 3u8, 5u8, 8u8, 13u8]
}

/// The distance between two numbers.
pub open spec fn distance(a: int, b: int) -> int {
    if a >= b {
        a - b
    } else {
        b - a
    }
}

/// Whether `valid_scores()[k]` is nearest to `n`, and no earlier valid score
/// is as near (the first of equally near scores wins).
pub open spec fn is_nearest_index(n: int, k: int) -> bool {
    &&& 0 <= k < valid_scores().len()
    &&& forall|j: int|
        0 <= j < valid_scores().len() ==> distance(valid_scores()[j] as int, n) >= distance(
            valid_scores()[k] as int,
            n,
        )
    &&& forall|j: int|
        0 <= j < k ==> distance(valid_scores()[j] as int, n) > distance(
            valid_scores()[k] as int,
            n,
        )
}

/// The score a maintainer's input stands for, and whether it was corrected:
/// unreadable input counts as a corrected zero; a number that is not a valid
/// score is corrected to the nearest valid one.
pub open spec fn score_reading(input: Seq<char>, res: (u8, bool)) -> bool {
    match parsed_u8(input) {
        None => res == (0u8, true),
        Some(v) => if valid_scores().contains(v) {
            res == (v, false)
        } else {
            res.1 && exists|k: int| is_nearest_index(v as int, k) && valid_scores()[k] == res.0
        },
    }
}

fn valid_score_at(k: usize) -> (res: u8)
    requires
        k < 7,
    ensures
        res == valid_scores()[k as int],
{
    if k == 0 {
        0
    } else if k == 1 {
        1
    } else if k == 2 {
        2
    } else if k == 3 {
        3
    } else if k == 4 {
        5
    } else if k == 5 {
        8
    } else {
        13
    }
}

fn distance_u8(a: u8, b: u8) -> (res: u8)
    ensures
        res as int == distance(a as int, b as int),
{
    if a >= b {
        a - b
    } else {
        b - a
    }
}

/// The first valid score nearest to `n`.
pub fn nearest_valid_score(n: u8) -> (res: u8)
    ensures
        exists|k: int| is_nearest_index(n as int, k) && valid_scores()[k] == res,
{
    let mut best: usize = 0;
    let mut k: usize = 1;
    while k < 7
        invariant
            1 <= k <= 7,
            best < k,
            forall|j: int|
                0 <= j < k ==> distance(valid_scores()[j] as int, n as int) >= distance(
                    valid_scores()[best as int] as int,
                    n as int,
                ),
            forall|j: int|
                0 <= j < best ==> distance(valid_scores()[j] as int, n as int) > distance(
                    valid_scores()[best as int] as int,
                    n as int,
                ),
        decreases 7 - k,
    {
        if distance_u8(valid_score_at(k), n) < distance_u8(valid_score_at(best), n) {
            best = k;
        }
        k = k + 1;
    }
    let res = valid_score_at(best);
    assert(is_nearest_index(n as int, best as int));
    res
}

/// Whether a number is a valid score.
fn is_valid_score_value(v: u8) -> (res: bool)
    ensures
        res == valid_scores().contains(v),
{
    let r = v == 0 || v == 1 || v == 2 || v == 3 || v == 5 || v == 8 || v == 13;
    proof {
        if r {
            let k: int = if v == 0 {
                0
            } else if v == 1 {
                1
            } else if v == 2 {
                2
            } else if v == 3 {
                3
            } else if v == 5 {
                4
            } else if v == 8 {
                5
            } else {
                6
            };
            assert(valid_scores()[k] == v);
        } else {
            assert forall|j: int| 0 <= j < valid_scores().len() implies valid_scores()[j] != v by {}
        }
    }
    r
}

// ---------------------------------------------------------------------------
// Commands.
// ---------------------------------------------------------------------------
/// A request to take part in the race.
#[derive(Debug, Clone)]
pub struct BotIncluded {
    pub sender: User,
    pub pr_metadata: PrMetadata,
    pub timestamp: UtcNanos,
    pub comment_id: Option<u64>,
}

/// A maintainer's score.
#[derive(Debug, Clone)]
pub struct BotScored {
    pub sender: User,
    pub pr_metadata: PrMetadata,
    pub score: String,
    pub timestamp: UtcNanos,
    pub comment_id: u64,
}

/// A request to pause the repository.
#[derive(Debug, Clone)]
pub struct BotPaused {
    pub pr_metadata: PrMetadata,
    pub sender: User,
    pub timestamp: UtcNanos,
    pub comment_id: u64,
}

/// A request to resume the repository.
#[derive(Debug, Clone)]
pub struct BotUnpaused {
    pub pr_metadata: PrMetadata,
    pub sender: User,
    pub timestamp: UtcNanos,
    pub comment_id: u64,
}

/// A request to take the pull request out of the race.
#[derive(Debug, Clone)]
pub struct BotExcluded {
    pub pr_metadata: PrMetadata,
    pub author: User,
    pub comment_id: u64,
    pub timestamp: UtcNanos,
}

/// A command the bot does not know.
#[derive(Debug, Clone)]
pub struct UnknownCommand {
    pub pr_metadata: PrMetadata,
    pub user: User,
    pub command: String,
    pub args: String,
    pub timestamp: UtcNanos,
    pub comment_id: u64,
}

/// A command addressed to the bot.
#[derive(Debug, Clone)]
pub enum Command {
    Include(BotIncluded),
    Score(BotScored),
    Pause(BotPaused),
    Unpause(BotUnpaused),
    Excluded(BotExcluded),
    Unknown(UnknownCommand),
}

/// Which command a command word names.
#[derive(Debug, Clone, Copy, PartialEq, Eq, Structural)]
pub enum CommandKind {
    Include,
    Score,
    Pause,
    Unpause,
    Exclude,
    Unknown,
}

/// The command a (lower-case) command word names.
pub open spec fn kind_of_word(w: Seq<char>) -> CommandKind {
    if w == "score"@ || w == "rate"@ || w == "value"@ {
        CommandKind::Score
    } else if w == "pause"@ || w == "block"@ {
        CommandKind::Pause
    } else if w == "unpause"@ || w == "unblock"@ {
        CommandKind::Unpause
    } else if w == "exclude"@ || w == "leave"@ {
        CommandKind::Exclude
    } else if w == "include"@ || w == "in"@ || w == "start"@ || w == "join"@ {
        CommandKind::Include
    } else {
        CommandKind::Unknown
    }
}

/// The command word's kind.
pub fn command_kind(w: &Vec<char>) -> (res: CommandKind)
    ensures
        res == kind_of_word(w@),
{
    if chars_equal(w, "score") || chars_equal(w, "rate") || chars_equal(w, "value") {
        CommandKind::Score
    } else if chars_equal(w, "pause") || chars_equal(w, "block") {
        CommandKind::Pause
    } else if chars_equal(w, "unpause") || chars_equal(w, "unblock") {
        CommandKind::Unpause
    } else if chars_equal(w, "exclude") || chars_equal(w, "leave") {
        CommandKind::Exclude
    } else if chars_equal(w, "include") || chars_equal(w, "in") || chars_equal(w, "start")
        || chars_equal(w, "join") {
        CommandKind::Include
    } else {
        CommandKind::Unknown
    }
}

/// A copy of a string.
fn copy_string(s: &String) -> (res: String)
    ensures
        res == *s,
{
    s.clone()
}

/// A copy of an association.
fn copy_association(a: &AuthorAssociation) -> (res: AuthorAssociation)
    ensures
        res == *a,
{
    match a {
        AuthorAssociation::Collaborator => AuthorAssociation::Collaborator,
        AuthorAssociation::Contributor => AuthorAssociation::Contributor,
        AuthorAssociation::FirstTimer => AuthorAssociation::FirstTimer,
        AuthorAssociation::FirstTimeContributor => AuthorAssociation::FirstTimeContributor,
        AuthorAssociation::Mannequin => AuthorAssociation::Mannequin,
        AuthorAssociation::Member => AuthorAssociation::Member,
        AuthorAssociation::NoAssociation => AuthorAssociation::NoAssociation,
        AuthorAssociation::Owner => AuthorAssociation::Owner,
        AuthorAssociation::Other(s) => AuthorAssociation::Other(copy_string(s)),
    }
}

/// A copy of a user.
pub fn copy_user(u: &User) -> (res: User)
    ensures
        res == *u,
{
    User { login: copy_string(&u.login), contributor_type: copy_association(&u.contributor_type) }
}

/// A copy of pull request metadata.
pub fn copy_metadata(m: &PrMetadata) -> (res: PrMetadata)
    ensures
        res == *m,
{
    PrMetadata {
        repo_info: RepoInfo {
            owner: copy_string(&m.repo_info.owner),
            repo: copy_string(&m.repo_info.repo),
            number: m.repo_info.number,
            full_id: copy_string(&m.repo_info.full_id),
        },
        author: copy_user(&m.author),
        created: m.created,
        merged: m.merged,
        updated_at: m.updated_at,
        body: copy_string(&m.body),
        closed: m.closed,
    }
}

/// The user who wrote a comment.
pub open spec fn comment_author(c: Comment) -> User {
    User { login: c.user_login, contributor_type: c.author_association }
}

fn comment_user(comment: &Comment) -> (res: User)
    ensures
        res == comment_author(*comment),
{
    User {
        login: copy_string(&comment.user_login),
        contributor_type: copy_association(&comment.author_association),
    }
}

/// Whether `c` is the command that a comment mentioning the bot gives: of
/// the kind its command word names, on the pull request, sent by the
/// comment's author when the comment was made, with the comment's
/// identifier and, for a score or an unknown command, the arguments.
pub open spec fn parses_as(bot_name: Seq<char>, pr_metadata: PrMetadata, comment: Comment, c: Command) -> bool {
    match extracted(bot_name, comment) {
        None => false,
        Some((word, args)) => {
            &&& c.kind() == kind_of_word(word)
            &&& c.spec_pr() == pr_metadata
            &&& c.spec_timestamp() == comment.created_at
            &&& c.spec_sender() == comment_author(comment)
            &&& c matches Command::Score(s) ==> s.score@ == args && s.comment_id == comment.id
            &&& c matches Command::Unknown(u) ==> u.command@ == word && u.args@ == args
                && u.comment_id == comment.id
            &&& c matches Command::Include(i) ==> i.comment_id == Some(comment.id)
            &&& c matches Command::Pause(p) ==> p.comment_id == comment.id
            &&& c matches Command::Unpause(p) ==> p.comment_id == comment.id
            &&& c matches Command::Excluded(e) ==> e.comment_id == comment.id
        },
    }
}

impl Command {
    /// The kind of the command.
    pub open spec fn kind(self) -> CommandKind {
        match self {
            Command::Include(_) => CommandKind::Include,
            Command::Score(_) => CommandKind::Score,
            Command::Pause(_) => CommandKind::Pause,
            Command::Unpause(_) => CommandKind::Unpause,
            Command::Excluded(_) => CommandKind::Exclude,
            Command::Unknown(_) => CommandKind::Unknown,
        }
    }

    /// The pull request the command is about.
    pub open spec fn spec_pr(self) -> PrMetadata {
        match self {
            Command::Include(e) => e.pr_metadata,
            Command::Score(e) => e.pr_metadata,
            Command::Pause(e) => e.pr_metadata,
            Command::Unpause(e) => e.pr_metadata,
            Command::Excluded(e) => e.pr_metadata,
            Command::Unknown(e) => e.pr_metadata,
        }
    }

    /// When the command was given.
    pub open spec fn spec_timestamp(self) -> UtcNanos {
        match self {
            Command::Include(e) => e.timestamp,
            Command::Score(e) => e.timestamp,
            Command::Pause(e) => e.timestamp,
            Command::Unpause(e) => e.timestamp,
            Command::Excluded(e) => e.timestamp,
            Command::Unknown(e) => e.timestamp,
        }
    }

    /// The user who gave the command.
    pub open spec fn spec_sender(self) -> User {
        match self {
            Command::Include(e) => e.sender,
            Command::Score(e) => e.sender,
            Command::Pause(e) => e.sender,
            Command::Unpause(e) => e.sender,
            Command::Excluded(e) => e.author,
            Command::Unknown(e) => e.user,
        }
    }

    /// The pull request the command is about.
    pub fn pr(&self) -> (res: &PrMetadata)
        ensures
            *res == self.spec_pr(),
    {
        match self {
            Command::Include(event) => &event.pr_metadata,
            Command::Score(event) => &event.pr_metadata,
            Command::Pause(event) => &event.pr_metadata,
            Command::Unpause(event) => &event.pr_metadata,
            Command::Excluded(event) => &event.pr_metadata,
            Command::Unknown(event) => &event.pr_metadata,
        }
    }

    /// When the command was given.
    pub fn timestamp(&self) -> (res: UtcNanos)
        ensures
            res == self.spec_timestamp(),
    {
        match self {
            Command::Include(event) => event.timestamp,
            Command::Score(event) => event.timestamp,
            Command::Pause(event) => event.timestamp,
            Command::Unpause(event) => event.timestamp,
            Command::Excluded(event) => event.timestamp,
            Command::Unknown(event) => event.timestamp,
        }
    }

    /// The command addressed to the bot in a comment on a pull request, if
    /// the comment mentions the bot.
    pub fn parse_command(bot_name: &str, pr_metadata: &PrMetadata, comment: &Comment) -> (res:
        Option<Command>)
        ensures
            match extracted(bot_name@, *comment) {
                None => res is None,
                Some(_) => res matches Some(c) && parses_as(bot_name@, *pr_metadata, *comment, c),
            },
    {
        let (command, args) = match extract_command_with_args(bot_name, comment) {
            Some(pair) => pair,
            None => {
                return None;
            },
        };
        let word = chars_of(command.as_str());
        let kind = command_kind(&word);
        let cmd = match kind {
            CommandKind::Score => BotScored::construct(pr_metadata, comment, args),
            CommandKind::Pause => BotPaused::construct(pr_metadata, comment),
            CommandKind::Unpause => BotUnpaused::construct(pr_metadata, comment),
            CommandKind::Exclude => BotExcluded::construct(pr_metadata, comment),
            CommandKind::Include => BotIncluded::construct(pr_metadata, comment),
            CommandKind::Unknown => UnknownCommand::construct(pr_metadata, comment, command, args),
        };
        Some(cmd)
    }

    /// A request to take part, if the pull request's description mentions
    /// the bot (`@<bot>` anywhere); the author is its sender.
    pub fn parse_body(bot_name: &str, pr_metadata: &PrMetadata) -> (res: Option<Command>)
        ensures
            res is Some <==> crate::text::find_first(
                pr_metadata.body@,
                seq!['@'] + bot_name@,
            ) is Some,
            res matches Some(c) ==> c == Command::Include(
                BotIncluded {
                    sender: pr_metadata.author,
                    pr_metadata: *pr_metadata,
                    timestamp: pr_metadata.created,
                    comment_id: None,
                },
            ),
    {
        BotIncluded::parse_body(bot_name, pr_metadata)
    }
}

impl BotIncluded {
    pub fn new(
        sender: User,
        pr_metadata: PrMetadata,
        timestamp: UtcNanos,
        comment_id: Option<u64>,
    ) -> (res: Self)
        ensures
            res == (BotIncluded { sender, pr_metadata, timestamp, comment_id }),
    {
        BotIncluded { sender, pr_metadata, timestamp, comment_id }
    }

    /// The request a comment makes.
    pub fn construct(pr_metadata: &PrMetadata, comment: &Comment) -> (res: Command)
        ensures
            res == Command::Include(
                BotIncluded {
                    sender: comment_author(*comment),
                    pr_metadata: *pr_metadata,
                    timestamp: comment.created_at,
                    comment_id: Some(comment.id),
                },
            ),
    {
        Command::Include(
            BotIncluded::new(
                comment_user(comment),
                copy_metadata(pr_metadata),
                comment.created_at,
                Some(comment.id),
            ),
        )
    }

    /// A request to take part, if the description mentions `@<bot>`.
    pub fn parse_body(bot_name: &str, pr_metadata: &PrMetadata) -> (res: Option<Command>)
        ensures
            res is Some <==> crate::text::find_first(
                pr_metadata.body@,
                seq!['@'] + bot_name@,
            ) is Some,
            res matches Some(c) ==> c == Command::Include(
                BotIncluded {
                    sender: pr_metadata.author,
                    pr_metadata: *pr_metadata,
                    timestamp: pr_metadata.created,
                    comment_id: None,
                },
            ),
    {
        let body = chars_of(pr_metadata.body.as_str());
        let mut mention: Vec<char> = Vec::new();
        mention.push('@');
        let bot = chars_of(bot_name);
        let mut k: usize = 0;
        while k < bot.len()
            invariant
                k <= bot.len(),
                mention@ == seq!['@'] + bot@.take(k as int),
            decreases bot.len() - k,
        {
            mention.push(bot[k]);
            k = k + 1;
            assert(bot@.take(k as int) =~= bot@.take(k - 1).push(bot@[k - 1]));
        }
        assert(bot@.take(bot.len() as int) =~= bot@);
        assert(mention@ =~= seq!['@'] + bot_name@);
        if find(&body, &mention).is_none() {
            return None;
        }
        Some(
            Command::Include(
                BotIncluded {
                    sender: copy_user(&pr_metadata.author),
                    pr_metadata: copy_metadata(pr_metadata),
                    timestamp: pr_metadata.created,
                    comment_id: None,
                },
            ),
        )
    }
}

impl BotScored {
    pub fn new(
        sender: User,
        pr_metadata: PrMetadata,
        score: String,
        timestamp: UtcNanos,
        comment_id: u64,
    ) -> (res: Self)
        ensures
            res == (BotScored { sender, pr_metadata, score, timestamp, comment_id }),
    {
        BotScored { sender, pr_metadata, score, timestamp, comment_id }
    }

    /// The score a comment gives, with the comment's arguments as input.
    pub fn construct(pr_metadata: &PrMetadata, comment: &Comment, input: String) -> (res: Command)
        ensures
            res == Command::Score(
                BotScored {
                    sender: comment_author(*comment),
                    pr_metadata: *pr_metadata,
                    score: input,
                    timestamp: comment.created_at,
                    comment_id: comment.id,
                },
            ),
    {
        Command::Score(
            BotScored::new(
                comment_user(comment),
                copy_metadata(pr_metadata),
                input,
                comment.created_at,
                comment.id,
            ),
        )
    }

    /// The score the maintainer's input stands for and whether it had to be
    /// corrected.
    pub fn score(&self) -> (res: (u8, bool))
        ensures
            score_reading(self.score@, res),
    {
        match parse_u8(self.score.as_str()) {
            None => (0, true),
            Some(score) => {
                if is_valid_score_value(score) {
                    (score, false)
                } else {
                    (nearest_valid_score(score), true)
                }
            },
        }
    }

    /// Whether the input reads as a number from 1 to 5.
    pub fn is_valid_score(&self) -> (res: bool)
        ensures
            res == (parsed_u8(self.score@) matches Some(n) && 1 <= n <= 5),
    {
        match parse_u8(self.score.as_str()) {
            Some(number) => 1 <= number && number <= 5,
            None => false,
        }
    }

    /// Whether the score counts: a maintainer scores a participant's pull
    /// request with a number from 1 to 5, and is not its author.
    pub fn is_accepted(&self) -> (res: bool)
        ensures
            res == (crate::github::participant_association(
                self.pr_metadata.author.contributor_type,
            ) && crate::github::maintainer_association(self.sender.contributor_type) && (
            parsed_u8(self.score@) matches Some(n) && 1 <= n <= 5)
                && self.pr_metadata.author.login@ != self.sender.login@),
    {
        self.pr_metadata.author.is_participant() && self.sender.is_maintainer()
            && self.is_valid_score() && !(self.pr_metadata.author.login == self.sender.login)
    }
}

impl BotPaused {
    /// The pause request a comment makes.
    pub fn construct(pr_metadata: &PrMetadata, comment: &Comment) -> (res: Command)
        ensures
            res == Command::Pause(
                BotPaused {
                    pr_metadata: *pr_metadata,
                    sender: comment_author(*comment),
                    timestamp: comment.created_at,
                    comment_id: comment.id,
                },
            ),
    {
        Command::Pause(
            BotPaused {
                pr_metadata: copy_metadata(pr_metadata),
                sender: comment_user(comment),
                timestamp: comment.created_at,
                comment_id: comment.id,
            },
        )
    }
}

impl BotUnpaused {
    /// The resume request a comment makes.
    pub fn construct(pr_metadata: &PrMetadata, comment: &Comment) -> (res: Command)
        ensures
            res == Command::Unpause(
                BotUnpaused {
                    pr_metadata: *pr_metadata,
                    sender: comment_author(*comment),
                    timestamp: comment.created_at,
                    comment_id: comment.id,
                },
            ),
    {
        Command::Unpause(
            BotUnpaused {
                pr_metadata: copy_metadata(pr_metadata),
                sender: comment_user(comment),
                timestamp: comment.created_at,
                comment_id: comment.id,
            },
        )
    }
}

impl BotExcluded {
    /// The exclusion request a comment makes.
    pub fn construct(pr_metadata: &PrMetadata, comment: &Comment) -> (res: Command)
        ensures
            res == Command::Excluded(
                BotExcluded {
                    pr_metadata: *pr_metadata,
                    author: comment_author(*comment),
                    comment_id: comment.id,
                    timestamp: comment.created_at,
                },
            ),
    {
        Command::Excluded(
            BotExcluded {
                pr_metadata: copy_metadata(pr_metadata),
                author: comment_user(comment),
                comment_id: comment.id,
                timestamp: comment.created_at,
            },
        )
    }
}

impl UnknownCommand {
    pub fn new(
        pr_metadata: PrMetadata,
        user: User,
        command: String,
        args: String,
        comment_id: u64,
        timestamp: UtcNanos,
    ) -> (res: Self)
        ensures
            res == (UnknownCommand { pr_metadata, user, command, args, timestamp, comment_id }),
    {
        UnknownCommand { pr_metadata, user, command, args, timestamp, comment_id }
    }

    /// The unknown command a comment gives.
    pub fn construct(
        pr_metadata: &PrMetadata,
        comment: &Comment,
        command: String,
        args: String,
    ) -> (res: Command)
        ensures
            res == Command::Unknown(
                UnknownCommand {
                    pr_metadata: *pr_metadata,
                    user: comment_author(*comment),
                    command,
                    args,
                    timestamp: comment.created_at,
                    comment_id: comment.id,
                },
            ),
    {
        Command::Unknown(
            UnknownCommand::new(
                copy_metadata(pr_metadata),
                comment_user(comment),
                command,
                args,
                comment.id,
                comment.created_at,
            ),
        )
    }
}

// ---------------------------------------------------------------------------
// Laws.
// ---------------------------------------------------------------------------
/// The nearest valid score is unique.
pub proof fn law_nearest_unique(n: int, k1: int, k2: int)
    requires
        is_nearest_index(n, k1),
        is_nearest_index(n, k2),
    ensures
        k1 == k2,
{
    if k1 < k2 {
        assert(distance(valid_scores()[k1] as int, n) > distance(valid_scores()[k2] as int, n));
    } else if k2 < k1 {
        assert(distance(valid_scores()[k2] as int, n) > distance(valid_scores()[k1] as int, n));
    }
}

/// Whatever the input, the score read from it is a valid score, and it is
/// marked as corrected exactly when the input is not a valid score itself.
pub proof fn law_score_reading_valid(input: Seq<char>, res: (u8, bool))
    requires
        score_reading(input, res),
    ensures
        valid_scores().contains(res.0),
        res.1 == !(parsed_u8(input) matches Some(v) && valid_scores().contains(v)),
{
    match parsed_u8(input) {
        None => {
            assert(valid_scores()[0] == 0u8);
        },
        Some(v) => {
            if !valid_scores().contains(v) {
                let k = choose|k: int| is_nearest_index(v as int, k) && valid_scores()[k] == res.0;
                assert(valid_scores()[k] == res.0);
            }
        },
    }
}

/// Each command word names one command: `pause` and `block` pause the
/// repository, `unpause` and `unblock` resume it, `exclude` and `leave`
/// exclude the pull request, `score`, `rate` and `value` score it, and
/// `include`, `in`, `start` and `join` include it; no other word names a
/// command.
pub proof fn law_command_words(w: Seq<char>)
    ensures
        (kind_of_word(w) == CommandKind::Pause) <==> (w == "pause"@ || w == "block"@),
        (kind_of_word(w) == CommandKind::Unpause) <==> (w == "unpause"@ || w == "unblock"@),
        (kind_of_word(w) == CommandKind::Exclude) <==> (w == "exclude"@ || w == "leave"@),
        (kind_of_word(w) == CommandKind::Score) <==> (w == "score"@ || w == "rate"@ || w
            == "value"@),
        (kind_of_word(w) == CommandKind::Include) <==> (w == "include"@ || w == "in"@ || w
            == "start"@ || w == "join"@),
{
    reveal_strlit("score");
    assert("score"@.len() == 5 && "score"@[0] == 's' && "score"@[1] == 'c');
    reveal_strlit("rate");
    assert("rate"@.len() == 4 && "rate"@[0] == 'r');
    reveal_strlit("value");
    assert("value"@.len() == 5 && "value"@[0] == 'v');
    reveal_strlit("pause");
    assert("pause"@.len() == 5 && "pause"@[0] == 'p');
    reveal_strlit("block");
    assert("block"@.len() == 5 && "block"@[0] == 'b');
    reveal_strlit("unpause");
    assert("unpause"@.len() == 7 && "unpause"@[0] == 'u');
    reveal_strlit("unblock");
    assert("unblock"@.len() == 7 && "unblock"@[0] == 'u');
    reveal_strlit("exclude");
    assert("exclude"@.len() == 7 && "exclude"@[0] == 'e');
    reveal_strlit("leave");
    assert("leave"@.len() == 5 && "leave"@[0] == 'l');
    reveal_strlit("include");
    assert("include"@.len() == 7 && "include"@[0] == 'i');
    reveal_strlit("in");
    assert("in"@.len() == 2 && "in"@[0] == 'i');
    reveal_strlit("start");
    assert("start"@.len() == 5 && "start"@[0] == 's' && "start"@[1] == 't');
    reveal_strlit("join");
    assert("join"@.len() == 4 && "join"@[0] == 'j');
}

} // verus!
