//! Switching a game's v86 artifact to another system version of the same
//! platform, over the catalogue of systems, their versions and game artifacts.
use vstd::prelude::*;
use crate::errors::{GameError, msg};
use crate::text::str_eq;

verus! {

/// Position of the first element satisfying `p`, or -1.
pub open spec fn first_where<T>(s: Seq<T>, p: spec_fn(T) -> bool) -> int
    decreases s.len(),
{
    if s.len() == 0 {
        -1
    } else if p(s[0]) {
        0
    } else {
        let r = first_where(s.drop_first(), p);
        if r < 0 {
            -1
        } else {
            r + 1
        }
    }
}

proof fn lemma_first_where_exact<T>(s: Seq<T>, p: spec_fn(T) -> bool, k: int)
    requires
        0 <= k <= s.len(),
        forall|j: int| 0 <= j < k ==> !p(#[trigger] s[j]),
        k < s.len() ==> p(s[k]),
    ensures
        first_where(s, p) == (if k == s.len() { -1 } else { k }),
    decreases s.len(),
{
    if s.len() > 0 && k > 0 {
        assert(!p(s[0]));
        assert forall|j: int| 0 <= j < k - 1 implies !p(#[trigger] s.drop_first()[j]) by {
            assert(s.drop_first()[j] == s[j + 1]);
        }
        if k < s.len() {
            assert(s.drop_first()[k - 1] == s[k]);
        }
        lemma_first_where_exact(s.drop_first(), p, k - 1);
    }
}

/// A base operating system image family.
pub struct V86System {
    pub id: i64,
    pub platform_key: String,
    pub is_active: bool,
}

/// One uploaded version of a system's disk image.
pub struct V86SystemVersion {
    pub id: i64,
    pub system_id: i64,
}

/// A game's v86 artifact: the system version it boots and its revision.
pub struct GameArtifact {
    pub game_id: i64,
    pub system_version_id: i64,
    pub artifact_revision: i64,
}

pub struct V86Catalog {
    pub systems: Vec<V86System>,
    pub versions: Vec<V86SystemVersion>,
    pub artifacts: Vec<GameArtifact>,
}

pub open spec fn version_with(id: i64) -> spec_fn(V86SystemVersion) -> bool {
    |v: V86SystemVersion| v.id == id
}

pub open spec fn system_with(id: i64) -> spec_fn(V86System) -> bool {
    |s: V86System| s.id == id
}

pub open spec fn artifact_of(game_id: i64) -> spec_fn(GameArtifact) -> bool {
    |a: GameArtifact| a.game_id == game_id
}

impl V86Catalog {
    /// The platform and activity of the system a version belongs to.
    pub open spec fn version_system(&self, version_id: i64) -> Option<(Seq<char>, bool)> {
        let vi = first_where(self.versions@, version_with(version_id));
        if vi < 0 {
            None
        } else {
            let si = first_where(self.systems@, system_with(self.versions@[vi].system_id));
            if si < 0 {
                None
            } else {
                Some((self.systems@[si].platform_key@, self.systems@[si].is_active))
            }
        }
    }

    /// A game's artifact position, when the artifact's version and system exist.
    pub open spec fn current(&self, game_id: i64) -> int {
        let ai = first_where(self.artifacts@, artifact_of(game_id));
        if ai < 0 || self.version_system(self.artifacts@[ai].system_version_id) is None {
            -1
        } else {
            ai
        }
    }
}

/// Why a switch of `game_id` to `version_id` is refused, if it is; `None`
/// also for a switch to the version the game already uses.
pub open spec fn repoint_error(c: V86Catalog, game_id: i64, version_id: i64) -> Option<Seq<char>> {
    let ai = c.current(game_id);
    if ai < 0 {
        Some("A completed v86 game artifact is required before switching systems."@)
    } else if c.artifacts@[ai].system_version_id == version_id {
        None
    } else {
        match c.version_system(version_id) {
            None => Some("The selected v86 system version does not exist."@),
            Some((platform, active)) => if !active {
                Some("The selected v86 system is not active."@)
            } else if platform != (c.version_system(c.artifacts@[ai].system_version_id)->0).0 {
                Some("A v86 game can only be switched between systems of the same platform."@)
            } else {
                None
            },
        }
    }
}

fn find_version(vs: &Vec<V86SystemVersion>, id: i64) -> (r: Option<usize>)
    ensures
        match r {
            Some(k) => first_where(vs@, version_with(id)) == k,
            None => first_where(vs@, version_with(id)) == -1,
        },
{
    let mut i: usize = 0;
    while i < vs.len()
        invariant
            i <= vs@.len(),
            forall|j: int| 0 <= j < i ==> !version_with(id)(#[trigger] vs@[j]),
        decreases vs@.len() - i,
    {
        if vs[i].id == id {
            proof {
                lemma_first_where_exact(vs@, version_with(id), i as int);
            }
            return Some(i);
        }
        i = i + 1;
    }
    proof {
        lemma_first_where_exact(vs@, version_with(id), i as int);
    }
    None
}

fn find_system(ss: &Vec<V86System>, id: i64) -> (r: Option<usize>)
    ensures
        match r {
            Some(k) => first_where(ss@, system_with(id)) == k,
            None => first_where(ss@, system_with(id)) == -1,
        },
{
    let mut i: usize = 0;
    while i < ss.len()
        invariant
            i <= ss@.len(),
            forall|j: int| 0 <= j < i ==> !system_with(id)(#[trigger] ss@[j]),
        decreases ss@.len() - i,
    {
        if ss[i].id == id {
            proof {
                lemma_first_where_exact(ss@, system_with(id), i as int);
            }
            return Some(i);
        }
        i = i + 1;
    }
    proof {
        lemma_first_where_exact(ss@, system_with(id), i as int);
    }
    None
}

fn find_artifact(as_: &Vec<GameArtifact>, game_id: i64) -> (r: Option<usize>)
    ensures
        match r {
            Some(k) => first_where(as_@, artifact_of(game_id)) == k,
            None => first_where(as_@, artifact_of(game_id)) == -1,
        },
{
    let mut i: usize = 0;
    while i < as_.len()
        invariant
            i <= as_@.len(),
            forall|j: int| 0 <= j < i ==> !artifact_of(game_id)(#[trigger] as_@[j]),
        decreases as_@.len() - i,
    {
        if as_[i].game_id == game_id {
            proof {
                lemma_first_where_exact(as_@, artifact_of(game_id), i as int);
            }
            return Some(i);
        }
        i = i + 1;
    }
    proof {
        lemma_first_where_exact(as_@, artifact_of(game_id), i as int);
    }
    None
}

/// The system (index into `systems`) of a version, when both exist.
fn version_system_index(c: &V86Catalog, version_id: i64) -> (r: Option<usize>)
    ensures
        match r {
            Some(si) => si < c.systems@.len() && c.version_system(version_id) == Some(
                (c.systems@[si as int].platform_key@, c.systems@[si as int].is_active),
            ),
            None => c.version_system(version_id) is None,
        },
{
    let vi = match find_version(&c.versions, version_id) {
        Some(v) => v,
        None => {
            return None;
        },
    };
    proof {
        crate::v86::lemma_first_where_bound(c.versions@, version_with(version_id));
    }
    let si = find_system(&c.systems, c.versions[vi].system_id);
    proof {
        crate::v86::lemma_first_where_bound(c.systems@, system_with(c.versions@[vi as int].system_id));
    }
    si
}

proof fn lemma_first_where_found<T>(s: Seq<T>, p: spec_fn(T) -> bool)
    ensures
        -1 <= first_where(s, p) < s.len(),
        first_where(s, p) >= 0 ==> p(s[first_where(s, p)]),
    decreases s.len(),
{
    if s.len() > 0 && !p(s[0]) {
        lemma_first_where_found(s.drop_first(), p);
        if first_where(s.drop_first(), p) >= 0 {
            assert(s.drop_first()[first_where(s.drop_first(), p)] == s[first_where(s, p)]);
        }
    }
}

proof fn lemma_first_where_bound<T>(s: Seq<T>, p: spec_fn(T) -> bool)
    ensures
        -1 <= first_where(s, p) < s.len(),
    decreases s.len(),
{
    if s.len() > 0 && !p(s[0]) {
        lemma_first_where_bound(s.drop_first(), p);
    }
}

/// The artifacts after an accepted switch of `game_id` to `version_id`: the
/// game's artifact boots the new version at the next revision, unless it
/// already boots it.
pub open spec fn repointed_artifacts(c: V86Catalog, game_id: i64, version_id: i64) -> Seq<GameArtifact> {
    let ai = c.current(game_id);
    let a = c.artifacts@[ai];
    if a.system_version_id == version_id {
        c.artifacts@
    } else {
        c.artifacts@.update(
            ai,
            GameArtifact {
                game_id: a.game_id,
                system_version_id: version_id,
                artifact_revision: (a.artifact_revision + 1) as i64,
            },
        )
    }
}

/// Re-point a game's v86 artifact at another system version. Only the base
/// OS image changes; the game disk and launcher ISOs stay as they are, so this
/// is a plain update of the artifact. Bumping `artifact_revision` makes any
/// in-flight package build or snapshot capture fail its revision checks
/// instead of half-landing. A refused switch changes nothing.
pub fn repoint_game_system(catalog: &mut V86Catalog, game_id: i64, system_version_id: i64) -> (r: Result<(), GameError>)
    requires
        old(catalog).current(game_id) >= 0 ==> old(catalog).artifacts@[old(catalog).current(
            game_id,
        )].artifact_revision < i64::MAX,
    ensures
        final(catalog).systems@ == old(catalog).systems@,
        final(catalog).versions@ == old(catalog).versions@,
        match repoint_error(*old(catalog), game_id, system_version_id) {
            Some(m) => r matches Err(GameError::InvalidDemo(e)) && e@ == m && final(catalog).artifacts@
                == old(catalog).artifacts@,
            None => r is Ok && final(catalog).artifacts@ == repointed_artifacts(
                *old(catalog),
                game_id,
                system_version_id,
            ),
        },
{
    let ai = match find_artifact(&catalog.artifacts, game_id) {
        Some(a) => a,
        None => {
            return Err(
                GameError::InvalidDemo(
                    msg("A completed v86 game artifact is required before switching systems."),
                ),
            );
        },
    };
    proof {
        lemma_first_where_bound(catalog.artifacts@, artifact_of(game_id));
    }
    let current_version = catalog.artifacts[ai].system_version_id;
    let current_si = match version_system_index(catalog, current_version) {
        Some(s) => s,
        None => {
            return Err(
                GameError::InvalidDemo(
                    msg("A completed v86 game artifact is required before switching systems."),
                ),
            );
        },
    };
    if current_version == system_version_id {
        return Ok(());
    }
    let target_si = match version_system_index(catalog, system_version_id) {
        Some(s) => s,
        None => {
            return Err(
                GameError::InvalidDemo(msg("The selected v86 system version does not exist.")),
            );
        },
    };
    if !catalog.systems[target_si].is_active {
        return Err(GameError::InvalidDemo(msg("The selected v86 system is not active.")));
    }
    if !str_eq(
        catalog.systems[target_si].platform_key.as_str(),
        catalog.systems[current_si].platform_key.as_str(),
    ) {
        return Err(
            GameError::InvalidDemo(
                msg("A v86 game can only be switched between systems of the same platform."),
            ),
        );
    }
    let old_rev = catalog.artifacts[ai].artifact_revision;
    assert(catalog.artifacts@[ai as int].artifact_revision < i64::MAX);
    let updated = GameArtifact {
        game_id: catalog.artifacts[ai].game_id,
        system_version_id,
        artifact_revision: old_rev + 1,
    };
    catalog.artifacts.set(ai, updated);
    Ok(())
}

/// What a system switch does: it needs the game's finished artifact; a
/// switch to the version the game already boots changes nothing; another
/// version must exist, belong to an active system and keep the platform. An
/// accepted switch to another version touches only the game's artifact, which
/// then boots that version one revision later; every other artifact, system
/// and version stays as it was.
pub proof fn law_system_switch(c: V86Catalog, game_id: i64, version_id: i64)
    ensures
        c.current(game_id) < 0 ==> repoint_error(c, game_id, version_id) is Some,
        c.current(game_id) >= 0 && c.artifacts@[c.current(game_id)].system_version_id == version_id
            ==> repoint_error(c, game_id, version_id) is None && repointed_artifacts(
            c,
            game_id,
            version_id,
        ) == c.artifacts@,
        c.current(game_id) >= 0 && c.artifacts@[c.current(game_id)].system_version_id != version_id ==> {
            let ai = c.current(game_id);
            let old_platform = (c.version_system(c.artifacts@[ai].system_version_id)->0).0;
            &&& c.version_system(version_id) is None ==> repoint_error(c, game_id, version_id) is Some
            &&& c.version_system(version_id) matches Some((p, active)) ==> (repoint_error(
                c,
                game_id,
                version_id,
            ) is None <==> active && p == old_platform)
            &&& repoint_error(c, game_id, version_id) is None ==> {
                let after = repointed_artifacts(c, game_id, version_id);
                &&& after.len() == c.artifacts@.len()
                &&& after[ai].game_id == game_id
                &&& after[ai].system_version_id == version_id
                &&& after[ai].artifact_revision == c.artifacts@[ai].artifact_revision + 1
                    || c.artifacts@[ai].artifact_revision == i64::MAX
                &&& forall|j: int| 0 <= j < after.len() && j != ai ==> after[j] == c.artifacts@[j]
            }
        },
{
    lemma_first_where_found(c.artifacts@, artifact_of(game_id));
}

} // verus!
