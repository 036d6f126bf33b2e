use linkmerge::sync::{
    clean, clean_mutations, plan_entry, sync, sync_mutations, CleanEntry, DestState, Mutation,
    SyncAction, SyncEntry,
};

#[test]
fn plan_create_on_vacant_name() {
    let action = plan_entry(&"/src/a".to_string(), &DestState::Vacant);
    assert_eq!(action, SyncAction::Create);
}

#[test]
fn plan_skip_on_equal_link() {
    let action = plan_entry(
        &"/src/a".to_string(),
        &DestState::LinkTo("/src/a".to_string()),
    );
    assert_eq!(action, SyncAction::Skip);
}

#[test]
fn plan_replace_on_broken_link() {
    let action = plan_entry(&"/src/a".to_string(), &DestState::BrokenLink);
    assert_eq!(action, SyncAction::Replace);
}

#[test]
fn mirror_empty_destination() {
    // Mirror correctness: entries {a, b, c} into an empty destination yield
    // exactly the three links, in order, and nothing else.
    let entries = vec![
        SyncEntry {
            name: "a".to_string(),
            source_abs: "/data/src/a".to_string(),
            dest_state: DestState::Vacant,
        },
        SyncEntry {
            name: "b".to_string(),
            source_abs: "/data/src/b".to_string(),
            dest_state: DestState::Vacant,
        },
        SyncEntry {
            name: "c".to_string(),
            source_abs: "/data/src/c".to_string(),
            dest_state: DestState::Vacant,
        },
    ];
    let plan = sync(&entries);
    assert_eq!(
        plan,
        vec![SyncAction::Create, SyncAction::Create, SyncAction::Create]
    );
    let muts = sync_mutations(&entries, false);
    assert_eq!(
        muts,
        vec![
            Mutation::Link("a".to_string(), "/data/src/a".to_string()),
            Mutation::Link("b".to_string(), "/data/src/b".to_string()),
            Mutation::Link("c".to_string(), "/data/src/c".to_string()),
        ]
    );
}

#[test]
fn second_pass_is_mutation_free() {
    // Idempotence: after the first pass settles every name, a second pass on
    // the unchanged source performs no mutation at all.
    let entries = vec![
        SyncEntry {
            name: "a".to_string(),
            source_abs: "/data/src/a".to_string(),
            dest_state: DestState::Vacant,
        },
        SyncEntry {
            name: "b".to_string(),
            source_abs: "/data/src/b".to_string(),
            dest_state: DestState::LinkTo("/elsewhere/b".to_string()),
        },
        SyncEntry {
            name: "c".to_string(),
            source_abs: "/data/src/c".to_string(),
            dest_state: DestState::Occupied,
        },
    ];
    let first = sync_mutations(&entries, false);
    assert!(!first.is_empty());
    // What each name holds once the planned actions ran.
    let mut settled = Vec::new();
    for e in &entries {
        let after = match plan_entry(&e.source_abs, &e.dest_state) {
            SyncAction::Skip | SyncAction::Collision => e.dest_state.clone(),
            SyncAction::Create | SyncAction::Replace => DestState::LinkTo(e.source_abs.clone()),
        };
        settled.push(SyncEntry {
            name: e.name.clone(),
            source_abs: e.source_abs.clone(),
            dest_state: after,
        });
    }
    let second = sync_mutations(&settled, false);
    assert_eq!(second, Vec::new());
    let second_plan = sync(&settled);
    assert_eq!(
        second_plan,
        vec![SyncAction::Skip, SyncAction::Skip, SyncAction::Collision]
    );
}

#[test]
fn dangling_cleanup_removes_only_broken() {
    // Dangling cleanup: the broken link goes, valid entries (a live symlink
    // and a real file both pass the existence check) are untouched.
    let entries = vec![
        CleanEntry {
            name: "broken".to_string(),
            exists: false,
        },
        CleanEntry {
            name: "live-link".to_string(),
            exists: true,
        },
        CleanEntry {
            name: "real-file".to_string(),
            exists: true,
        },
    ];
    let removals = clean(&entries);
    assert_eq!(removals, vec!["broken".to_string()]);
}

#[test]
fn cleanup_of_valid_listing_is_empty() {
    let entries = vec![
        CleanEntry {
            name: "a".to_string(),
            exists: true,
        },
        CleanEntry {
            name: "b".to_string(),
            exists: true,
        },
    ];
    assert_eq!(clean(&entries), Vec::<String>::new());
}

#[test]
fn collision_is_preserved() {
    // Collision preservation: a real file named like a source entry is left
    // alone; the plan only warns, and no mutation names it.
    let entries = vec![SyncEntry {
        name: "a".to_string(),
        source_abs: "/data/src/a".to_string(),
        dest_state: DestState::Occupied,
    }];
    let plan = sync(&entries);
    assert_eq!(plan, vec![SyncAction::Collision]);
    let muts = sync_mutations(&entries, false);
    assert_eq!(muts, Vec::new());
}

#[test]
fn stale_link_is_replaced() {
    // Stale replace: a link to /old/path is deleted and re-created pointing
    // at the source's current canonical path.
    let entries = vec![SyncEntry {
        name: "a".to_string(),
        source_abs: "/new/path".to_string(),
        dest_state: DestState::LinkTo("/old/path".to_string()),
    }];
    let plan = sync(&entries);
    assert_eq!(plan, vec![SyncAction::Replace]);
    let muts = sync_mutations(&entries, false);
    assert_eq!(
        muts,
        vec![
            Mutation::Remove("a".to_string()),
            Mutation::Link("a".to_string(), "/new/path".to_string()),
        ]
    );
}

#[test]
fn dry_run_mutates_nothing() {
    // Dry-run no-op: a pass that would create, replace and delete performs
    // zero mutations, while the plan still reports every intended action.
    let entries = vec![
        SyncEntry {
            name: "a".to_string(),
            source_abs: "/data/src/a".to_string(),
            dest_state: DestState::Vacant,
        },
        SyncEntry {
            name: "b".to_string(),
            source_abs: "/data/src/b".to_string(),
            dest_state: DestState::LinkTo("/stale".to_string()),
        },
    ];
    let plan = sync(&entries);
    assert_eq!(plan, vec![SyncAction::Create, SyncAction::Replace]);
    assert_eq!(sync_mutations(&entries, true), Vec::new());
    let removals = vec!["dead".to_string()];
    assert_eq!(clean_mutations(&removals, true), Vec::<String>::new());
    assert_eq!(clean_mutations(&removals, false), removals);
}
