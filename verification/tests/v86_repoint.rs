use blog_handlers::errors::GameError;
use blog_handlers::v86::{repoint_game_system, GameArtifact, V86Catalog, V86System, V86SystemVersion};

/// Systems 1-3 active (windows9x, windows9x, windowsxp), system 4 inactive
/// (windows9x); versions 11-14 point at them in the same order. Game 1
/// carries an artifact on version 11.
fn seed() -> V86Catalog {
    let mut systems = Vec::new();
    for (id, platform, active) in [
        (1, "windows9x", true),
        (2, "windows9x", true),
        (3, "windowsxp", true),
        (4, "windows9x", false),
    ] {
        systems.push(V86System { id, platform_key: platform.to_string(), is_active: active });
    }
    let mut versions = Vec::new();
    for (id, system_id) in [(11, 1), (12, 2), (13, 3), (14, 4)] {
        versions.push(V86SystemVersion { id, system_id });
    }
    V86Catalog {
        systems,
        versions,
        artifacts: vec![GameArtifact { game_id: 1, system_version_id: 11, artifact_revision: 1 }],
    }
}

fn artifact_row(catalog: &V86Catalog) -> (i64, i64) {
    let a = catalog.artifacts.iter().find(|a| a.game_id == 1).unwrap();
    (a.system_version_id, a.artifact_revision)
}

#[test]
fn repoints_within_the_same_platform_and_bumps_the_revision() {
    let mut catalog = seed();

    repoint_game_system(&mut catalog, 1, 12).unwrap();

    assert_eq!(artifact_row(&catalog), (12, 2));
}

#[test]
fn same_version_is_a_noop() {
    let mut catalog = seed();

    repoint_game_system(&mut catalog, 1, 11).unwrap();

    assert_eq!(artifact_row(&catalog), (11, 1));
}

#[test]
fn rejects_cross_platform_inactive_unknown_and_missing_artifact() {
    let mut catalog = seed();

    let err = repoint_game_system(&mut catalog, 1, 13).unwrap_err(); // windowsxp
    assert!(matches!(err, GameError::InvalidDemo(_)), "{err:?}");
    let err = repoint_game_system(&mut catalog, 1, 14).unwrap_err(); // inactive
    assert!(matches!(err, GameError::InvalidDemo(_)), "{err:?}");
    let err = repoint_game_system(&mut catalog, 1, 99).unwrap_err(); // no version
    assert!(matches!(err, GameError::InvalidDemo(_)), "{err:?}");
    let err = repoint_game_system(&mut catalog, 2, 12).unwrap_err(); // no artifact
    assert!(matches!(err, GameError::InvalidDemo(_)), "{err:?}");

    // Nothing above may have mutated the artifact.
    assert_eq!(artifact_row(&catalog), (11, 1));
}

#[test]
fn refusals_carry_their_reason() {
    let mut catalog = seed();
    match repoint_game_system(&mut catalog, 1, 13) {
        Err(GameError::InvalidDemo(m)) => assert_eq!(m, "A v86 game can only be switched between systems of the same platform."),
        other => panic!("{other:?}"),
    }
    match repoint_game_system(&mut catalog, 1, 14) {
        Err(GameError::InvalidDemo(m)) => assert_eq!(m, "The selected v86 system is not active."),
        other => panic!("{other:?}"),
    }
    match repoint_game_system(&mut catalog, 1, 99) {
        Err(GameError::InvalidDemo(m)) => assert_eq!(m, "The selected v86 system version does not exist."),
        other => panic!("{other:?}"),
    }
    match repoint_game_system(&mut catalog, 2, 12) {
        Err(GameError::InvalidDemo(m)) => {
            assert_eq!(m, "A completed v86 game artifact is required before switching systems.")
        }
        other => panic!("{other:?}"),
    }
}

#[test]
fn repeated_switches_bump_the_revision_each_time() {
    let mut catalog = seed();
    repoint_game_system(&mut catalog, 1, 12).unwrap();
    repoint_game_system(&mut catalog, 1, 11).unwrap();
    assert_eq!(artifact_row(&catalog), (11, 3));
    assert_eq!(catalog.systems.len(), 4);
    assert_eq!(catalog.versions.len(), 4);
}
