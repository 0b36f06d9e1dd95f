use smoothly::interact::{cursor2index, rebuild_mod_lists, Cursor};
use smoothly::paths::{is_manifest_name, join_components, name_is_pbo, traversal_rank, Rank};
use smoothly::repo::{default_version, make_repo, Mod, Repo, Server};
use smoothly::{State, Transaction};

fn mod_entry(name: &str, enabled: bool) -> Mod {
    Mod { modName: name.to_string(), Enabled: enabled, checkSum: String::new() }
}

fn repo_with(required: Vec<Mod>, optional: Vec<Mod>) -> Repo {
    Repo {
        repoName: "r".to_string(),
        clientParameters: String::new(),
        basePath: ".".to_string(),
        requiredMods: required,
        optionalMods: optional,
        servers: Vec::new(),
        version: default_version(),
        imageChecksum: String::new(),
    }
}

#[test]
fn has_mod_looks_in_both_lists() {
    let repo = repo_with(vec![mod_entry("alpha", true)], vec![mod_entry("beta", false)]);
    assert!(repo.has_mod("alpha"));
    assert!(repo.has_mod("beta"));
    assert!(!repo.has_mod("gamma"));
}

#[test]
fn mod_state_reports_kind_and_enablement() {
    let repo = repo_with(
        vec![mod_entry("req_on", true), mod_entry("req_off", false)],
        vec![mod_entry("opt_on", true), mod_entry("opt_off", false)],
    );
    assert_eq!(repo.mod_state("req_on"), State::Enabled);
    assert_eq!(repo.mod_state("req_off"), State::Disabled);
    assert_eq!(repo.mod_state("opt_on"), State::OptionalEnabled);
    assert_eq!(repo.mod_state("opt_off"), State::OptionalDisabled);
    assert_eq!(repo.mod_state("missing"), State::Disabled);
}

#[test]
fn set_hash_updates_first_match_only() {
    let mut repo = repo_with(
        vec![mod_entry("dup", true), mod_entry("dup", false)],
        vec![mod_entry("dup", true), mod_entry("solo", true)],
    );
    repo.set_hash("dup", "AABB".to_string());
    assert_eq!(repo.requiredMods[0].checkSum, "AABB");
    assert_eq!(repo.requiredMods[1].checkSum, "");
    assert_eq!(repo.optionalMods[0].checkSum, "");

    repo.set_hash("solo", "CCDD".to_string());
    assert_eq!(repo.optionalMods[1].checkSum, "CCDD");

    // A name nobody carries changes nothing.
    repo.set_hash("nobody", "EEFF".to_string());
    assert_eq!(repo.requiredMods[0].checkSum, "AABB");
    assert_eq!(repo.requiredMods[1].checkSum, "");
    assert_eq!(repo.optionalMods[0].checkSum, "");
    assert_eq!(repo.optionalMods[1].checkSum, "CCDD");
}

#[test]
fn make_repo_defaults() {
    let server = Server {
        name: "s".to_string(),
        address: "a".to_string(),
        port: "2302".to_string(),
        password: String::new(),
        battleEye: true,
    };
    let repo = make_repo("name".to_string(), "/mods".to_string(), vec![server]);
    assert_eq!(repo.repoName, "name");
    assert_eq!(repo.basePath, "/mods");
    assert_eq!(repo.clientParameters, "-noSplash -skipIntro");
    assert_eq!(repo.version, "3.0.0.0");
    assert!(repo.requiredMods.is_empty());
    assert!(repo.optionalMods.is_empty());
    assert_eq!(repo.servers.len(), 1);
    assert_eq!(repo.imageChecksum, "");
    assert_eq!(default_version(), "3.0.0.0");
}

#[test]
fn cursor_positions() {
    assert_eq!(cursor2index(8, 100), Cursor::Apply);
    assert_eq!(cursor2index(9, 100), Cursor::Cancel);
    assert_eq!(cursor2index(19, 100), Cursor::Cancel);
    assert_eq!(cursor2index(0, 100), Cursor::Item(0));
    assert_eq!(cursor2index(3, 100), Cursor::Item(3));
    assert_eq!(cursor2index(13, 100), Cursor::Item(11));
    // Right past the listing the actions follow at once.
    assert_eq!(cursor2index(0, 0), Cursor::Apply);
    assert_eq!(cursor2index(1, 0), Cursor::Cancel);
    assert_eq!(cursor2index(12, 10), Cursor::Apply);
    assert_eq!(cursor2index(13, 10), Cursor::Cancel);
}

#[test]
fn state_cycles_through_all_four() {
    assert_eq!(State::Disabled.cycled(), State::Enabled);
    assert_eq!(State::Enabled.cycled(), State::OptionalDisabled);
    assert_eq!(State::OptionalDisabled.cycled(), State::OptionalEnabled);
    assert_eq!(State::OptionalEnabled.cycled(), State::Disabled);
}

#[test]
fn transaction_transitions() {
    assert_eq!(Transaction::Remove.on_insert(), Transaction::Existing);
    assert_eq!(Transaction::Existing.on_insert(), Transaction::Existing);
    assert_eq!(Transaction::Ignore.on_insert(), Transaction::Add);
    assert_eq!(Transaction::Add.on_insert(), Transaction::Add);

    assert_eq!(Transaction::Existing.on_delete(), Transaction::Remove);
    assert_eq!(Transaction::Add.on_delete(), Transaction::Ignore);
    assert_eq!(Transaction::Remove.on_delete(), Transaction::Remove);
    assert_eq!(Transaction::Ignore.on_delete(), Transaction::Ignore);
}

#[test]
fn rebuild_splits_required_and_optional() {
    let listing = vec![
        ("keep_req".to_string(), Transaction::Existing, State::Enabled),
        ("keep_req_off".to_string(), Transaction::Add, State::Disabled),
        ("keep_opt".to_string(), Transaction::Add, State::OptionalEnabled),
        ("dropped".to_string(), Transaction::Remove, State::Enabled),
        ("ignored".to_string(), Transaction::Ignore, State::Enabled),
    ];
    let (required, optional) = rebuild_mod_lists(&listing);
    assert_eq!(required.len(), 2);
    assert_eq!(required[0].modName, "keep_req");
    assert!(required[0].Enabled);
    assert_eq!(required[0].checkSum, "");
    assert_eq!(required[1].modName, "keep_req_off");
    assert!(!required[1].Enabled);
    assert_eq!(optional.len(), 1);
    assert_eq!(optional[0].modName, "keep_opt");
    assert!(optional[0].Enabled);
}

#[test]
fn traversal_ranks_directories_first_names_descending() {
    assert_eq!(traversal_rank(true, "a", false, "z"), Rank::Less);
    assert_eq!(traversal_rank(false, "z", true, "a"), Rank::Greater);
    assert_eq!(traversal_rank(false, "b", false, "a"), Rank::Less);
    assert_eq!(traversal_rank(false, "a", false, "b"), Rank::Greater);
    assert_eq!(traversal_rank(true, "same", true, "same"), Rank::Equal);
    assert_eq!(traversal_rank(false, "abc", false, "ab"), Rank::Less);
}

#[test]
fn components_join_with_backslash() {
    assert_eq!(join_components(&vec![]), "");
    assert_eq!(join_components(&vec!["one".to_string()]), "one");
    assert_eq!(
        join_components(&vec!["optionals".to_string(), "x.pbo".to_string()]),
        "optionals\\x.pbo"
    );
    assert_eq!(
        join_components(&vec!["a".to_string(), "b".to_string(), "c".to_string()]),
        "a\\b\\c"
    );
}

#[test]
fn manifest_file_name_is_recognised() {
    assert!(is_manifest_name("mod.srf"));
    assert!(!is_manifest_name("mod.srf.bak"));
    assert!(!is_manifest_name("other.txt"));
}

#[test]
fn archive_extension_is_recognised() {
    assert!(name_is_pbo("thing.pbo"));
    assert!(name_is_pbo("a\\b\\c.pbo"));
    assert!(!name_is_pbo("thing.pbo.bisign"));
    assert!(!name_is_pbo("pbo"));
    assert!(!name_is_pbo(""));
}
