//! Related-game links of a game page: blank entries are dropped before storing.
use vstd::prelude::*;
use crate::errors::{GameError, msg};
use crate::text::{blank, chars_of, is_blank};

verus! {

/// A related game a game page links to.
pub struct GameLink {
    pub title: String,
    pub slug: String,
}

/// Upper bound on how many related games a game may list.
pub const MAX_GAME_LINKS: usize = 20;

pub open spec fn keeps_game_link(l: GameLink) -> bool {
    !blank(l.title@) && !blank(l.slug@)
}

pub open spec fn kept_game_links(links: Seq<GameLink>) -> Seq<GameLink> {
    links.filter(|l: GameLink| keeps_game_link(l))
}

fn string_is_blank(s: &String) -> (r: bool)
    ensures
        r == blank(s@),
{
    let cs = chars_of(s.as_str());
    is_blank(cs.as_slice())
}

/// Drops links with a blank title or slug; more than twenty remaining is an error.
pub fn normalize_links(links: Vec<GameLink>) -> (r: Result<Vec<GameLink>, GameError>)
    ensures
        kept_game_links(links@).len() <= MAX_GAME_LINKS ==> (r matches Ok(v) && v@
            == kept_game_links(links@)),
        kept_game_links(links@).len() > MAX_GAME_LINKS ==> (r matches Err(GameError::InvalidDemo(m))
            && m@ == "A game may have at most 20 related games."@),
{
    let mut kept: Vec<GameLink> = Vec::new();
    let mut i: usize = 0;
    while i < links.len()
        invariant
            i <= links@.len(),
            kept@ == links@.take(i as int).filter(|l: GameLink| keeps_game_link(l)),
        decreases links@.len() - i,
    {
        proof {
            reveal(Seq::filter);
            assert(links@.take(i + 1).drop_last() == links@.take(i as int));
            assert(links@.take(i + 1).last() == links@[i as int]);
        }
        let l = &links[i];
        if !string_is_blank(&l.title) && !string_is_blank(&l.slug) {
            kept.push(GameLink { title: l.title.clone(), slug: l.slug.clone() });
        }
        i = i + 1;
    }
    assert(links@.take(links@.len() as int) == links@);
    if kept.len() > MAX_GAME_LINKS {
        return Err(GameError::InvalidDemo(msg("A game may have at most 20 related games.")));
    }
    Ok(kept)
}

proof fn lemma_filter_keeps_all(s: Seq<GameLink>)
    requires
        forall|i: int| 0 <= i < s.len() ==> keeps_game_link(#[trigger] s[i]),
    ensures
        s.filter(|l: GameLink| keeps_game_link(l)) == s,
    decreases s.len(),
{
    reveal(Seq::filter);
    if s.len() > 0 {
        lemma_filter_keeps_all(s.drop_last());
        assert(s.drop_last().push(s.last()) == s);
    }
}

/// Normalizing the links that a normalization kept keeps them all: they are
/// already free of blank entries.
pub proof fn law_kept_game_links_are_stable(links: Seq<GameLink>)
    ensures
        kept_game_links(kept_game_links(links)) == kept_game_links(links),
{
    let k = kept_game_links(links);
    assert forall|i: int| 0 <= i < k.len() implies keeps_game_link(#[trigger] k[i]) by {
        links.lemma_filter_pred(|l: GameLink| keeps_game_link(l), i);
    }
    lemma_filter_keeps_all(k);
}

} // verus!
