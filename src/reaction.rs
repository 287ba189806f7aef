//! Handling the message having reactions

use vstd::prelude::*;

use crate::error::Error;
use crate::message::Reaction;
use crate::MessageSource;

verus! {

/// Defines what to allow when checking reactions
#[derive(Debug, Clone, Copy, PartialEq, Eq, Structural)]
pub enum CheckBehavior {
    /// Allow no reactions
    NoReaction,
    /// Allow up to the given number of reaction emojis
    ///
    /// This is useful to limit the number of requests sent in recreating the
    /// reactions
    Limit(u8),
    /// Only allow reactions if there is only one of each emoji
    ///
    /// This is useful because multiple reactions can't be recreated, since the
    /// bot can't react with the same emoji twice
    CountOne,
    /// Only allow unicode emojis
    Unicode,
    /// Only allow unicode emojis or emojis of the current guild
    NotExternal,
}

/// Whether a reaction's emoji is a custom one
pub open spec fn is_custom(r: Reaction) -> bool {
    r.emoji_id is Some
}

/// Whether a reaction's emoji is a custom one from outside the guild
pub open spec fn is_external(r: Reaction, guild_emoji_ids: Seq<u64>) -> bool {
    r.emoji_id matches Some(id) && !guild_emoji_ids.contains(id)
}

/// Whether the reaction at a position is re-created: its emoji is unicode
/// or of the guild
pub open spec fn kept_at(reactions: Seq<Reaction>, guild_emoji_ids: Seq<u64>) -> spec_fn(
    int,
) -> bool {
    |i: int| !is_external(reactions[i], guild_emoji_ids)
}

/// The positions `0..n`, in order
pub open spec fn positions(n: nat) -> Seq<int> {
    Seq::new(n, |i: int| i)
}

/// Whether any reaction has a custom emoji
pub open spec fn custom_exists(reactions: Seq<Reaction>) -> bool {
    exists|i: int| 0 <= i < reactions.len() && is_custom(#[trigger] reactions[i])
}

/// Whether any reaction has an emoji from outside the guild
pub open spec fn external_exists(reactions: Seq<Reaction>, guild_emoji_ids: Seq<u64>) -> bool {
    exists|i: int| 0 <= i < reactions.len() && is_external(#[trigger] reactions[i], guild_emoji_ids)
}

/// Whether any reaction was made by more than one user
pub open spec fn multiple_exists(reactions: Seq<Reaction>) -> bool {
    exists|i: int| 0 <= i < reactions.len() && #[trigger] reactions[i].count > 1
}

/// The guild's emoji IDs as a sequence, empty when unknown
pub open spec fn emoji_ids_view(ids: Option<Vec<u64>>) -> Seq<u64> {
    match ids {
        Some(ids) => ids@,
        None => Seq::empty(),
    }
}

/// What checking `reactions` under `behavior` gives, with the guild's emojis
pub open spec fn check_reaction_spec(
    behavior: CheckBehavior,
    reactions: Seq<Reaction>,
    guild_emoji_ids: Seq<u64>,
) -> Result<(), Error> {
    match behavior {
        CheckBehavior::NoReaction => if reactions.len() > 0 {
            Err(Error::Reaction)
        } else {
            Ok(())
        },
        CheckBehavior::Limit(limit) => if reactions.len() > limit {
            Err(Error::ReactionAboveLimit(limit))
        } else {
            Ok(())
        },
        CheckBehavior::CountOne => if multiple_exists(reactions) {
            Err(Error::ReactionCountMultiple)
        } else {
            Ok(())
        },
        CheckBehavior::Unicode => if custom_exists(reactions) {
            Err(Error::ReactionCustom)
        } else {
            Ok(())
        },
        CheckBehavior::NotExternal => if external_exists(reactions, guild_emoji_ids) {
            Err(Error::ReactionExternal)
        } else {
            Ok(())
        },
    }
}

fn contains_id(ids: &Vec<u64>, id: u64) -> (r: bool)
    ensures
        r == ids@.contains(id),
{
    let mut i: usize = 0;
    while i < ids.len()
        invariant
            i <= ids.len(),
            forall|j: int| 0 <= j < i ==> ids@[j] != id,
        decreases ids.len() - i,
    {
        if ids[i] == id {
            return true;
        }
        i = i + 1;
    }
    false
}

fn is_external_exec(reaction: Reaction, guild_emoji_ids: &Vec<u64>) -> (r: bool)
    ensures
        r == is_external(reaction, guild_emoji_ids@),
{
    match reaction.emoji_id {
        Some(id) => !contains_id(guild_emoji_ids, id),
        None => false,
    }
}

/// Whether any reaction has a custom emoji
pub fn custom_emoji_exists(reactions: &Vec<Reaction>) -> (r: bool)
    ensures
        r == custom_exists(reactions@),
{
    let mut i: usize = 0;
    while i < reactions.len()
        invariant
            i <= reactions.len(),
            forall|j: int| 0 <= j < i ==> !is_custom(#[trigger] reactions@[j]),
        decreases reactions.len() - i,
    {
        if reactions[i].emoji_id.is_some() {
            return true;
        }
        i = i + 1;
    }
    false
}

impl MessageSource {
    /// Whether checking reactions under `behavior` needs the guild's emojis,
    /// which the caller then fetches and hands to
    /// [`MessageSource::set_guild_emojis`]
    pub fn needs_guild_emojis(&self, behavior: CheckBehavior) -> (r: bool)
        ensures
            r == (behavior == CheckBehavior::NotExternal && custom_exists(self.reactions@)
                && self.guild_emoji_ids is None),
    {
        match behavior {
            CheckBehavior::NotExternal => self.guild_emoji_ids.is_none() && custom_emoji_exists(
                &self.reactions,
            ),
            _ => false,
        }
    }

    /// Keeps the guild's emoji IDs, unless they are known already
    pub fn set_guild_emojis(&mut self, ids: Vec<u64>)
        ensures
            old(self).guild_emoji_ids is None ==> final(self).guild_emoji_ids == Some(ids),
            old(self).guild_emoji_ids is Some ==> final(self).guild_emoji_ids == old(
                self,
            ).guild_emoji_ids,
            final(self).reactions == old(self).reactions,
    {
        if self.guild_emoji_ids.is_none() {
            self.guild_emoji_ids = Some(ids);
        }
    }

    /// Check the message's reactions against `behavior`
    ///
    /// # Errors
    ///
    /// Returns [`Error::Reaction`] if [`CheckBehavior::NoReaction`] was passed and
    /// the message has a reaction
    ///
    /// Returns [`Error::ReactionAboveLimit`] if [`CheckBehavior::Limit`] was
    /// passed and the message has more reactions than the limit
    ///
    /// Returns [`Error::ReactionCountMultiple`] if [`CheckBehavior::CountOne`]
    /// was passed and the message has a reaction emoji with count higher
    /// than 1
    ///
    /// Returns [`Error::ReactionCustom`] if [`CheckBehavior::Unicode`] was
    /// passed and the message has a non-unicode reaction emoji
    ///
    /// Returns [`Error::ReactionExternal`] if [`CheckBehavior::NotExternal`]
    /// was passed and the message has an external reaction emoji
    pub fn check_reaction(&self, behavior: CheckBehavior) -> (r: Result<(), Error>)
        requires
            behavior == CheckBehavior::NotExternal && custom_exists(self.reactions@)
                ==> self.guild_emoji_ids is Some,
        ensures
            r == check_reaction_spec(
                behavior,
                self.reactions@,
                emoji_ids_view(self.guild_emoji_ids),
            ),
    {
        let reactions = &self.reactions;
        match behavior {
            CheckBehavior::NoReaction => if reactions.len() > 0 {
                Err(Error::Reaction)
            } else {
                Ok(())
            },
            CheckBehavior::Limit(limit) => if reactions.len() > limit as usize {
                Err(Error::ReactionAboveLimit(limit))
            } else {
                Ok(())
            },
            CheckBehavior::CountOne => {
                let mut i: usize = 0;
                while i < reactions.len()
                    invariant
                        i <= reactions.len(),
                        reactions@ == self.reactions@,
                        behavior == CheckBehavior::CountOne,
                        forall|j: int| 0 <= j < i ==> #[trigger] reactions@[j].count <= 1,
                    decreases reactions.len() - i,
                {
                    if reactions[i].count > 1 {
                        assert(reactions@[i as int].count > 1);
                        return Err(Error::ReactionCountMultiple);
                    }
                    i = i + 1;
                }
                Ok(())
            },
            CheckBehavior::Unicode => if custom_emoji_exists(reactions) {
                Err(Error::ReactionCustom)
            } else {
                Ok(())
            },
            CheckBehavior::NotExternal => {
                if !custom_emoji_exists(reactions) {
                    assert(!external_exists(reactions@, emoji_ids_view(self.guild_emoji_ids)));
                    return Ok(());
                }
                let ids = self.guild_emoji_ids.as_ref().unwrap();
                let mut i: usize = 0;
                while i < reactions.len()
                    invariant
                        i <= reactions.len(),
                        reactions@ == self.reactions@,
                        behavior == CheckBehavior::NotExternal,
                        ids@ == emoji_ids_view(self.guild_emoji_ids),
                        forall|j: int| 0 <= j < i ==> !is_external(#[trigger] reactions@[j], ids@),
                    decreases reactions.len() - i,
                {
                    if is_external_exec(reactions[i], ids) {
                        assert(is_external(reactions@[i as int], ids@));
                        return Err(Error::ReactionExternal);
                    }
                    i = i + 1;
                }
                Ok(())
            },
        }
    }

    /// Positions of the reactions to re-create on the cloned message: all
    /// of them but the ones with an emoji from outside the guild
    ///
    /// # Errors
    ///
    /// Returns [`Error::NotCreated`] if there is a reaction to re-create but
    /// the message has not been created yet
    pub fn reactions_to_create(&self) -> (r: Result<Vec<usize>, Error>)
        requires
            custom_exists(self.reactions@) ==> self.guild_emoji_ids is Some,
        ensures
            ({
                let kept = positions(self.reactions@.len()).filter(
                    kept_at(self.reactions@, emoji_ids_view(self.guild_emoji_ids)),
                );
                &&& kept.len() == 0 ==> (r matches Ok(v) && v@.len() == 0)
                &&& kept.len() > 0 && self.response is None ==> r == Err::<Vec<usize>, Error>(
                    Error::NotCreated,
                )
                &&& kept.len() > 0 && self.response is Some ==> (r matches Ok(v) && v@.map_values(
                    |i: usize| i as int,
                ) == kept)
            }),
    {
        let ghost pred = kept_at(self.reactions@, emoji_ids_view(self.guild_emoji_ids));
        let empty: Vec<u64> = Vec::new();
        let ids = match &self.guild_emoji_ids {
            Some(ids) => ids,
            None => &empty,
        };
        let mut kept: Vec<usize> = Vec::new();
        let mut i: usize = 0;
        while i < self.reactions.len()
            invariant
                i <= self.reactions.len(),
                pred == kept_at(self.reactions@, emoji_ids_view(self.guild_emoji_ids)),
                custom_exists(self.reactions@) ==> ids@ == emoji_ids_view(self.guild_emoji_ids),
                self.guild_emoji_ids is None ==> ids@ == Seq::<u64>::empty(),
                kept@.map_values(|k: usize| k as int) == positions(i as nat).filter(pred),
            decreases self.reactions.len() - i,
        {
            let x = self.reactions[i];
            proof {
                assert(positions((i + 1) as nat) =~= positions(i as nat).push(i as int));
                positions(i as nat).lemma_filter_push(i as int, pred);
                if x.emoji_id is Some {
                    assert(is_custom(self.reactions@[i as int]));
                    assert(ids@ == emoji_ids_view(self.guild_emoji_ids));
                }
            }
            let ghost before = kept@;
            if !is_external_exec(x, ids) {
                kept.push(i);
                assert(kept@.map_values(|k: usize| k as int) =~= before.map_values(
                    |k: usize| k as int,
                ).push(i as int));
            }
            i = i + 1;
        }
        if kept.len() == 0 {
            return Ok(kept);
        }
        if self.response.is_none() {
            return Err(Error::NotCreated);
        }
        Ok(kept)
    }
}

} // verus!
