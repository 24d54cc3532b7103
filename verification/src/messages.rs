//! Texts the bot and the server produce: the status comment of a pull
//! request, messages escaped for Telegram, and a few fixed texts.
use vstd::prelude::*;

use crate::pr::{PRInfo, Score};
use crate::text::{chars_of, decimal, push_char, push_decimal, push_str, starts_with};

verus! {

// ---------------------------------------------------------------------------
// The status comment.
// ---------------------------------------------------------------------------
pub open spec fn status_header() -> Seq<char> {
    "### 🏆 Race of Sloths Status Update 🏆\n\n"@
}

pub open spec fn status_excluded() -> Seq<char> {
    "Hey there! 🚫 Your PR has been excluded from the Race of Sloths. If you think this is a mistake, please reach out to the maintainers. 🙏\n\n"@
}

pub open spec fn status_included() -> Seq<char> {
    "Hey there! 🎉 Your PR is now part of the Race of Sloths. Thanks for contributing! 🙌\n\n"@
}

pub open spec fn status_current() -> Seq<char> {
    "**Current Status:**\n\n"@
}

pub open spec fn status_scoring() -> Seq<char> {
    "- **Scoring:**\n"@
}

pub open spec fn status_no_scores() -> Seq<char> {
    "- **Scoring:** No one has scored your PR yet. Maintainers can score using `@race-of-sloths score [1,2,3,5,8,13]`.\n"@
}

pub open spec fn status_merged() -> Seq<char> {
    "- **Merge Status:** Your PR has been successfully merged! 🎉\n"@
}

pub open spec fn status_not_merged() -> Seq<char> {
    "- **Merge Status:** Your PR hasn't been tracked as merged yet. Hang tight, it might take a bit of time! ⏳\n"@
}

pub open spec fn status_executed() -> Seq<char> {
    "- **Execution Status:** The PR has been executed. Great job! 🚀\n"@
}

pub open spec fn status_not_executed() -> Seq<char> {
    "- **Execution Status:** The PR hasn't been executed yet. Stay tuned! 👀\n"@
}

pub open spec fn status_footer() -> Seq<char> {
    "\nWe'll keep this status updated as things progress. Thanks again for your awesome contribution! 🌟"@
}

/// `  - <user>: <score>` and a line break.
pub open spec fn vote_line(v: Score) -> Seq<char> {
    "  - "@ + v.user@ + ": "@ + decimal(v.score as nat) + "\n"@
}

/// The vote lines of all votes, in order.
pub open spec fn vote_lines(votes: Seq<Score>) -> Seq<char>
    decreases votes.len(),
{
    if votes.len() == 0 {
        Seq::empty()
    } else {
        vote_lines(votes.drop_last()) + vote_line(votes.last())
    }
}

/// The status comment of a pull request.
pub open spec fn status_text(info: PRInfo) -> Seq<char> {
    if info.excluded {
        status_header() + status_excluded()
    } else {
        status_header() + status_included() + status_current() + (if info.votes@.len() > 0 {
            status_scoring() + vote_lines(info.votes@)
        } else {
            status_no_scores()
        }) + (if info.merged {
            status_merged()
        } else {
            status_not_merged()
        }) + (if info.executed {
            status_executed()
        } else {
            status_not_executed()
        }) + status_footer()
    }
}

impl PRInfo {
    /// The status comment: whether the pull request takes part, its scores,
    /// and whether it is merged and executed.
    pub fn status_message(&self) -> (res: String)
        ensures
            res@ == status_text(*self),
    {
        proof {
            reveal_strlit("### 🏆 Race of Sloths Status Update 🏆\n\n");
        }
        let mut message = String::new();
        push_str(&mut message, "### 🏆 Race of Sloths Status Update 🏆\n\n");
        if self.excluded {
            push_str(
                &mut message,
                "Hey there! 🚫 Your PR has been excluded from the Race of Sloths. If you think this is a mistake, please reach out to the maintainers. 🙏\n\n",
            );
            assert(message@ =~= status_text(*self));
            return message;
        }
        push_str(
            &mut message,
            "Hey there! 🎉 Your PR is now part of the Race of Sloths. Thanks for contributing! 🙌\n\n",
        );
        push_str(&mut message, "**Current Status:**\n\n");
        let ghost before_votes = message@;
        if self.votes.len() > 0 {
            push_str(&mut message, "- **Scoring:**\n");
            let ghost start = message@;
            let mut i: usize = 0;
            while i < self.votes.len()
                invariant
                    i <= self.votes@.len(),
                    message@ == start + vote_lines(self.votes@.take(i as int)),
                decreases self.votes@.len() - i,
            {
                let vote = &self.votes[i];
                push_str(&mut message, "  - ");
                push_str(&mut message, vote.user.as_str());
                push_str(&mut message, ": ");
                push_decimal(&mut message, vote.score as u64);
                push_str(&mut message, "\n");
                proof {
                    assert(self.votes@.take(i + 1).drop_last() =~= self.votes@.take(i as int));
                    assert(self.votes@.take(i + 1).last() == *vote);
                }
                i = i + 1;
                assert(message@ =~= start + vote_lines(self.votes@.take(i as int)));
            }
            assert(self.votes@.take(self.votes@.len() as int) =~= self.votes@);
        } else {
            push_str(
                &mut message,
                "- **Scoring:** No one has scored your PR yet. Maintainers can score using `@race-of-sloths score [1,2,3,5,8,13]`.\n",
            );
        }
        let ghost after_votes = message@;
        if self.merged {
            push_str(&mut message, "- **Merge Status:** Your PR has been successfully merged! 🎉\n");
        } else {
            push_str(
                &mut message,
                "- **Merge Status:** Your PR hasn't been tracked as merged yet. Hang tight, it might take a bit of time! ⏳\n",
            );
        }
        if self.executed {
            push_str(
                &mut message,
                "- **Execution Status:** The PR has been executed. Great job! 🚀\n",
            );
        } else {
            push_str(
                &mut message,
                "- **Execution Status:** The PR hasn't been executed yet. Stay tuned! 👀\n",
            );
        }
        push_str(
            &mut message,
            "\nWe'll keep this status updated as things progress. Thanks again for your awesome contribution! 🌟",
        );
        assert(message@ =~= status_text(*self));
        message
    }
}

// ---------------------------------------------------------------------------
// Telegram.
// ---------------------------------------------------------------------------
/// The severity of a log message.
#[derive(Debug, Clone, Copy, PartialEq, Eq, Structural)]
pub enum Level {
    Error,
    Warn,
    Info,
    Debug,
    Trace,
}

impl Level {
    /// The upper-case name of the level.
    pub open spec fn name(self) -> Seq<char> {
        match self {
            Level::Error => "ERROR"@,
            Level::Warn => "WARN"@,
            Level::Info => "INFO"@,
            Level::Debug => "DEBUG"@,
            Level::Trace => "TRACE"@,
        }
    }

    /// The upper-case name of the level.
    pub fn as_str(&self) -> (res: &'static str)
        ensures
            res@ == self.name(),
    {
        match self {
            Level::Error => "ERROR",
            Level::Warn => "WARN",
            Level::Info => "INFO",
            Level::Debug => "DEBUG",
            Level::Trace => "TRACE",
        }
    }
}

/// Something to send to the Telegram chat.
pub enum MessageType {
    CsvFile((String, Vec<u8>)),
    Message((String, Level)),
}

/// The characters that Telegram's MarkdownV2 needs escaped.
pub open spec fn markdown_special(c: char) -> bool {
    c == '_' || c == '*' || c == '[' || c == ']' || c == '(' || c == ')' || c == '~' || c == '`'
        || c == '>' || c == '#' || c == '+' || c == '-' || c == '=' || c == '|' || c == '{'
        || c == '}' || c == '.' || c == '!'
}

/// `s` with a backslash put before every character that `escaped` selects.
pub open spec fn escape_with(s: Seq<char>, escaped: spec_fn(char) -> bool) -> Seq<char>
    decreases s.len(),
{
    if s.len() == 0 {
        Seq::empty()
    } else {
        escape_with(s.drop_last(), escaped) + (if escaped(s.last()) {
            seq!['\\', s.last()]
        } else {
            seq![s.last()]
        })
    }
}

/// The text of a Telegram message: info messages with hyphens escaped;
/// others fully escaped, wrapped as `*<LEVEL>*: `<message>``.
pub open spec fn telegram_text(message: Seq<char>, level: Level) -> Seq<char> {
    if level == Level::Info {
        escape_with(message, |c: char| c == '-')
    } else {
        "*"@ + level.name() + "*: `"@ + escape_with(message, |c: char| markdown_special(c)) + "`"@
    }
}

fn is_markdown_special(c: char) -> (res: bool)
    ensures
        res == markdown_special(c),
{
    c == '_' || c == '*' || c == '[' || c == ']' || c == '(' || c == ')' || c == '~' || c == '`'
        || c == '>' || c == '#' || c == '+' || c == '-' || c == '=' || c == '|' || c == '{'
        || c == '}' || c == '.' || c == '!'
}

/// Appends `message` with a backslash before the escaped characters (all of
/// MarkdownV2's special characters, or only hyphens).
fn push_escaped(out: &mut String, message: &str, only_hyphens: bool)
    ensures
        final(out)@ == old(out)@ + (if only_hyphens {
            escape_with(message@, |c: char| c == '-')
        } else {
            escape_with(message@, |c: char| markdown_special(c))
        }),
{
    let ghost escaped = if only_hyphens {
        |c: char| c == '-'
    } else {
        |c: char| markdown_special(c)
    };
    let cs = chars_of(message);
    let ghost start = out@;
    let mut i: usize = 0;
    while i < cs.len()
        invariant
            i <= cs.len(),
            cs@ == message@,
            escaped == (if only_hyphens {
                |c: char| c == '-'
            } else {
                |c: char| markdown_special(c)
            }),
            out@ == start + escape_with(cs@.take(i as int), escaped),
        decreases cs.len() - i,
    {
        let c = cs[i];
        let special = if only_hyphens {
            c == '-'
        } else {
            is_markdown_special(c)
        };
        assert(special == escaped(c));
        if special {
            push_char(out, '\\');
        }
        push_char(out, c);
        proof {
            assert(cs@.take(i + 1).drop_last() =~= cs@.take(i as int));
            assert(cs@.take(i + 1).last() == c);
        }
        i = i + 1;
        assert(out@ =~= start + escape_with(cs@.take(i as int), escaped));
    }
    assert(cs@.take(cs.len() as int) =~= cs@);
}

/// The text sent to Telegram for a message of the given level.
pub fn telegram_message(message: &str, level: Level) -> (res: String)
    ensures
        res@ == telegram_text(message@, level),
{
    let mut out = String::new();
    if level == Level::Info {
        push_escaped(&mut out, message, true);
        assert(out@ =~= telegram_text(message@, level));
        return out;
    }
    push_str(&mut out, "*");
    push_str(&mut out, level.as_str());
    push_str(&mut out, "*: `");
    push_escaped(&mut out, message, false);
    push_str(&mut out, "`");
    assert(out@ =~= telegram_text(message@, level));
    out
}

// ---------------------------------------------------------------------------
// Fixed texts and small decisions.
// ---------------------------------------------------------------------------
/// The bot's welcome message (the same for every user).
pub fn msg(_user: &str) -> (res: String)
    ensures
        res@ == "This pull request is a part of Sloth race now."@,
{
    let mut s = String::new();
    push_str(&mut s, "This pull request is a part of Sloth race now.");
    assert(s@ =~= "This pull request is a part of Sloth race now."@);
    s
}

/// Robots may crawl the site: for every robot, no path is disallowed.
pub fn robots() -> (res: &'static str)
    ensures
        res@ == "User-agent: *\nDisallow:"@,
{
    "User-agent: *\nDisallow:"
}

/// The MIME type of a Base64-encoded image, recognised by the encoded magic
/// number of PNG or JPEG.
pub fn determine_image_type(image_base64: &str) -> (res: Option<&'static str>)
    ensures
        match res {
            Some(t) => (image_base64@.len() >= 11 && image_base64@.take(11) == "iVBORw0KGgo"@
                && t@ == "image/png"@) || (!(image_base64@.len() >= 11 && image_base64@.take(11)
                == "iVBORw0KGgo"@) && image_base64@.len() >= 4 && image_base64@.take(4)
                == "/9j/"@ && t@ == "image/jpeg"@),
            None => !(image_base64@.len() >= 11 && image_base64@.take(11) == "iVBORw0KGgo"@) && !(
            image_base64@.len() >= 4 && image_base64@.take(4) == "/9j/"@),
        },
{
    proof {
        reveal_strlit("iVBORw0KGgo");
        reveal_strlit("/9j/");
    }
    let image = chars_of(image_base64);
    let png = chars_of("iVBORw0KGgo");
    let jpeg = chars_of("/9j/");
    if starts_with(&image, &png) {
        Some("image/png")
    } else if starts_with(&image, &jpeg) {
        Some("image/jpeg")
    } else {
        None
    }
}

} // verus!
