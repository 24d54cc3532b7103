//! Which GitHub notifications the bot reads, and the commands it takes from
//! the comments of a pull request: those made since its own last comment,
//! newest first, or the request in the description when it has never been
//! addressed.
use vstd::prelude::*;

use crate::commands::{parses_as, extracted, Comment, Command, BotIncluded};
use crate::github::PrMetadata;
use crate::text::find_first;

verus! {

/// Whether the bot reads a notification: one on a pull request, for a
/// mention or a change of state.
pub open spec fn is_relevant(subject_type: Seq<char>, reason: Seq<char>) -> bool {
    subject_type == "PullRequest"@ && (reason == "mention"@ || reason == "state_change"@)
}

/// Whether the bot reads a notification; the others are only marked read.
pub fn is_relevant_notification(subject_type: &str, reason: &str) -> (res: bool)
    ensures
        res == is_relevant(subject_type@, reason@),
{
    let t = crate::text::chars_of(subject_type);
    let r = crate::text::chars_of(reason);
    crate::text::chars_equal(&t, "PullRequest") && (crate::text::chars_equal(&r, "mention")
        || crate::text::chars_equal(&r, "state_change"))
}

/// The position just after the bot's last comment, zero if it never
/// commented.
pub open spec fn after_own(comments: Seq<Comment>, bot_name: Seq<char>) -> int
    decreases comments.len(),
{
    if comments.len() == 0 {
        0
    } else if comments.last().user_login@ == bot_name {
        comments.len() as int
    } else {
        after_own(comments.drop_last(), bot_name)
    }
}

/// The comments made since the bot's last one, newest first.
pub open spec fn pending(comments: Seq<Comment>, bot_name: Seq<char>) -> Seq<Comment> {
    let from = after_own(comments, bot_name);
    Seq::new((comments.len() - from) as nat, |k: int| comments[comments.len() - 1 - k])
}

/// Whether the commands `res` are those of the comments `cs` that mention
/// the bot, in the order of `cs`.
pub open spec fn parses_of(
    bot_name: Seq<char>,
    pr: PrMetadata,
    cs: Seq<Comment>,
    res: Seq<Command>,
) -> bool
    decreases cs.len(),
{
    if cs.len() == 0 {
        res.len() == 0
    } else {
        match extracted(bot_name, cs.last()) {
            None => parses_of(bot_name, pr, cs.drop_last(), res),
            Some(_) => res.len() > 0 && parses_as(bot_name, pr, cs.last(), res.last())
                && parses_of(bot_name, pr, cs.drop_last(), res.drop_last()),
        }
    }
}

/// Whether some of the comments mention the bot.
pub open spec fn has_mention(bot_name: Seq<char>, cs: Seq<Comment>) -> bool {
    exists|k: int| 0 <= k < cs.len() && (#[trigger] extracted(bot_name, cs[k])) is Some
}

/// The request to take part that a description mentioning the bot makes.
pub open spec fn body_commands(bot_name: Seq<char>, pr: PrMetadata) -> Seq<Command> {
    if find_first(pr.body@, seq!['@'] + bot_name) is Some {
        seq![
            Command::Include(
                BotIncluded {
                    sender: pr.author,
                    pr_metadata: pr,
                    timestamp: pr.created,
                    comment_id: None,
                },
            ),
        ]
    } else {
        Seq::empty()
    }
}

/// Without mentions, the comments give no commands.
proof fn lemma_parses_of_no_mention(bot_name: Seq<char>, pr: PrMetadata, cs: Seq<Comment>, res: Seq<Command>)
    requires
        parses_of(bot_name, pr, cs, res),
        !has_mention(bot_name, cs),
    ensures
        res.len() == 0,
    decreases cs.len(),
{
    if cs.len() > 0 {
        assert(extracted(bot_name, cs[cs.len() - 1]) is None);
        assert forall|k: int| 0 <= k < cs.drop_last().len() implies (#[trigger] extracted(
            bot_name,
            cs.drop_last()[k],
        )) is None by {
            assert(cs.drop_last()[k] == cs[k]);
        }
        lemma_parses_of_no_mention(bot_name, pr, cs.drop_last(), res);
    }
}

/// Nothing after position `i` is the bot's: the bot's last comment is
/// before it.
proof fn lemma_after_own_below(comments: Seq<Comment>, bot_name: Seq<char>, i: int)
    requires
        0 <= i <= comments.len(),
        forall|j: int| i <= j < comments.len() ==> (#[trigger] comments[j]).user_login@ != bot_name,
    ensures
        after_own(comments, bot_name) == after_own(comments.take(i), bot_name),
        0 <= after_own(comments, bot_name) <= i,
    decreases comments.len(),
{
    if comments.len() > i {
        let q = comments.drop_last();
        assert forall|j: int| i <= j < q.len() implies (#[trigger] q[j]).user_login@ != bot_name by {
            assert(q[j] == comments[j]);
        }
        lemma_after_own_below(q, bot_name, i);
        assert(q.take(i) =~= comments.take(i));
    } else {
        assert(comments.take(i) =~= comments);
        lemma_after_own_bounds(comments, bot_name);
    }
}

proof fn lemma_after_own_bounds(comments: Seq<Comment>, bot_name: Seq<char>)
    ensures
        0 <= after_own(comments, bot_name) <= comments.len(),
    decreases comments.len(),
{
    if comments.len() > 0 {
        lemma_after_own_bounds(comments.drop_last(), bot_name);
    }
}

impl Command {
    /// The commands of a pull request's comments: those of the comments made
    /// since the bot's last one that mention it, newest first; when there
    /// are none and the bot has never commented, the request to take part
    /// that the description makes, if it mentions the bot.
    #[verifier::spinoff_prover]
    pub fn from_comments(bot_name: &str, pr_metadata: &PrMetadata, comments: &Vec<Comment>) -> (res:
        Vec<Command>)
        ensures
            ({
                let pend = pending(comments@, bot_name@);
                if has_mention(bot_name@, pend) || after_own(comments@, bot_name@) > 0 {
                    parses_of(bot_name@, *pr_metadata, pend, res@)
                } else {
                    res@ == body_commands(bot_name@, *pr_metadata)
                }
            }),
    {
        let ghost cs = comments@;
        let ghost n = cs.len() as int;
        let mut results: Vec<Command> = Vec::new();
        let mut i: usize = comments.len();
        let mut found_us = false;
        let ghost mut seen: Seq<Comment> = Seq::empty();
        while i > 0
            invariant_except_break
                !found_us,
            invariant
                0 <= i <= n,
                cs == comments@,
                n == cs.len(),
                seen.len() == n - i,
                forall|k: int| 0 <= k < seen.len() ==> #[trigger] seen[k] == cs[n - 1 - k],
                forall|j: int| i <= j < n ==> (#[trigger] cs[j]).user_login@ != bot_name@,
                parses_of(bot_name@, *pr_metadata, seen, results@),
            ensures
                found_us ==> i > 0 && cs[i - 1].user_login@ == bot_name@,
                !found_us ==> i == 0,
            decreases i,
        {
            let comment = &comments[i - 1];
            if crate::text::chars_equal(&crate::text::chars_of(comment.user_login.as_str()), bot_name) {
                found_us = true;
                break;
            }
            let ghost before = seen;
            proof {
                seen = seen.push(*comment);
                assert(seen.drop_last() =~= before);
            }
            match Command::parse_command(bot_name, pr_metadata, comment) {
                Some(c) => {
                    let ghost old_results = results@;
                    results.push(c);
                    assert(results@.drop_last() =~= old_results);
                },
                None => {},
            }
            i = i - 1;
        }
        proof {
            lemma_after_own_below(cs, bot_name@, i as int);
            if found_us {
                assert(cs.take(i as int).last() == cs[i - 1]);
                assert(after_own(cs.take(i as int), bot_name@) == i);
            } else {
                assert(after_own(cs.take(0), bot_name@) == 0);
            }
            assert(seen =~= pending(cs, bot_name@));
            if results@.len() > 0 && !has_mention(bot_name@, seen) {
                lemma_parses_of_no_mention(bot_name@, *pr_metadata, seen, results@);
            }
        }
        if results.len() == 0 && !found_us {
            proof {
                if has_mention(bot_name@, seen) {
                    let k = choose|k: int| 0 <= k < seen.len() && (#[trigger] extracted(bot_name@, seen[k])) is Some;
                    lemma_parses_of_mention(bot_name@, *pr_metadata, seen, results@, k);
                }
            }
            match Command::parse_body(bot_name, pr_metadata) {
                Some(c) => {
                    results.push(c);
                    assert(results@ =~= body_commands(bot_name@, *pr_metadata));
                },
                None => {
                    assert(results@ =~= body_commands(bot_name@, *pr_metadata));
                },
            }
        }
        results
    }
}

/// A mention among the comments gives a command.
proof fn lemma_parses_of_mention(bot_name: Seq<char>, pr: PrMetadata, cs: Seq<Comment>, res: Seq<Command>, k: int)
    requires
        parses_of(bot_name, pr, cs, res),
        0 <= k < cs.len(),
        extracted(bot_name, cs[k]) is Some,
    ensures
        res.len() > 0,
    decreases cs.len(),
{
    if k < cs.len() - 1 {
        assert(cs.drop_last()[k] == cs[k]);
        if extracted(bot_name, cs.last()) is None {
            lemma_parses_of_mention(bot_name, pr, cs.drop_last(), res, k);
        }
    }
}

/// Every comment after the bot's last one is someone else's.
proof fn lemma_after_own_others(comments: Seq<Comment>, bot_name: Seq<char>)
    ensures
        forall|j: int|
            after_own(comments, bot_name) <= j < comments.len() ==> (#[trigger] comments[j]).user_login@
                != bot_name,
    decreases comments.len(),
{
    if comments.len() > 0 && comments.last().user_login@ != bot_name {
        let q = comments.drop_last();
        lemma_after_own_others(q, bot_name);
        lemma_after_own_bounds(q, bot_name);
        assert forall|j: int|
            after_own(comments, bot_name) <= j < comments.len() implies (#[trigger] comments[j]).user_login@
                != bot_name by {
            if j < q.len() {
                assert(comments[j] == q[j]);
            }
        }
    }
}

/// The bot never takes a command from its own comments, nor from a comment
/// made before its last one: the comments it reads are the others' since
/// then, newest first.
pub proof fn law_reads_only_since_own(comments: Seq<Comment>, bot_name: Seq<char>)
    ensures
        forall|k: int|
            0 <= k < pending(comments, bot_name).len() ==> (#[trigger] pending(comments, bot_name)[k]).user_login@
                != bot_name,
        forall|k: int|
            0 <= k < pending(comments, bot_name).len() ==> pending(comments, bot_name)[k]
                == comments[comments.len() - 1 - k] && comments.len() - 1 - k >= after_own(
                comments,
                bot_name,
            ),
{
    lemma_after_own_bounds(comments, bot_name);
    lemma_after_own_others(comments, bot_name);
}

} // verus!
