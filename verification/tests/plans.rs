use manifest_writer::cargo_toml::{CargoToml, BASE_CARGO_TOML};
use manifest_writer::feature::Feature;
use manifest_writer::plan::{Fault, Operation, Step};
use std::path::PathBuf;

fn manifest() -> CargoToml {
    CargoToml { path: PathBuf::from("leptos-icons/Cargo.toml") }
}

fn features(names: &[&str]) -> Vec<Feature> {
    names.iter().map(|name| Feature { name: String::from(*name) }).collect()
}

#[test]
fn init_creates_writes_the_header_and_flushes() {
    let manifest = manifest();
    let plan = manifest.init();
    assert_eq!(plan.operation, Operation::Init);
    assert_eq!(
        plan.steps,
        vec![Step::CreateNew, Step::Write(BASE_CARGO_TOML.as_bytes().to_vec()), Step::Flush]
    );
}

#[test]
fn init_never_opens_an_existing_file() {
    let manifest = manifest();
    let plan = manifest.init();
    assert!(!plan.steps.contains(&Step::OpenAppend));
    assert!(!plan.steps.contains(&Step::Remove));
    assert_eq!(plan.steps[0], Step::CreateNew);
}

#[test]
fn append_features_writes_one_line_per_feature_in_order() {
    let manifest = manifest();
    let plan = manifest.append_features(features(&["home", "search"]));
    assert_eq!(plan.operation, Operation::AppendFeatures);
    assert_eq!(
        plan.steps,
        vec![
            Step::OpenAppend,
            Step::Write(b"home = []\n".to_vec()),
            Step::Write(b"search = []\n".to_vec()),
            Step::Flush,
        ]
    );
}

#[test]
fn append_features_keeps_the_order_it_was_given() {
    let manifest = manifest();
    let plan = manifest.append_features(features(&["b", "a", "c"]));
    assert_eq!(
        plan.steps,
        vec![
            Step::OpenAppend,
            Step::Write(b"b = []\n".to_vec()),
            Step::Write(b"a = []\n".to_vec()),
            Step::Write(b"c = []\n".to_vec()),
            Step::Flush,
        ]
    );
}

#[test]
fn append_features_repeats_a_repeated_name() {
    let manifest = manifest();
    let plan = manifest.append_features(features(&["home", "home"]));
    assert_eq!(
        plan.steps,
        vec![
            Step::OpenAppend,
            Step::Write(b"home = []\n".to_vec()),
            Step::Write(b"home = []\n".to_vec()),
            Step::Flush,
        ]
    );
}

#[test]
fn append_features_of_nothing_still_opens_and_flushes() {
    let manifest = manifest();
    let plan = manifest.append_features(Vec::new());
    assert_eq!(plan.steps, vec![Step::OpenAppend, Step::Flush]);
}

#[test]
fn append_features_never_creates_or_truncates() {
    let manifest = manifest();
    let plan = manifest.append_features(features(&["home"]));
    assert!(!plan.steps.contains(&Step::CreateNew));
    assert!(!plan.steps.contains(&Step::Remove));
}

#[test]
fn append_features_encodes_names_as_utf8() {
    let manifest = manifest();
    let plan = manifest.append_features(features(&["caf\u{e9}"]));
    assert_eq!(
        plan.steps,
        vec![
            Step::OpenAppend,
            Step::Write(vec![b'c', b'a', b'f', 0xc3, 0xa9, b' ', b'=', b' ', b'[', b']', b'\n']),
            Step::Flush,
        ]
    );
}

#[test]
fn append_features_has_two_steps_more_than_features() {
    let manifest = manifest();
    let names: Vec<String> = (0..250).map(|index| format!("icon{}", index)).collect();
    let many: Vec<Feature> = names.iter().map(|name| Feature { name: name.clone() }).collect();
    let plan = manifest.append_features(many);
    assert_eq!(plan.steps.len(), 252);
    assert_eq!(plan.steps[1], Step::Write(b"icon0 = []\n".to_vec()));
    assert_eq!(plan.steps[250], Step::Write(b"icon249 = []\n".to_vec()));
    assert_eq!(plan.steps[251], Step::Flush);
}

#[test]
fn remove_is_a_single_step() {
    let manifest = manifest();
    let plan = manifest.remove();
    assert_eq!(plan.operation, Operation::Remove);
    assert_eq!(plan.steps, vec![Step::Remove]);
}

#[test]
fn plans_aim_at_the_manifest_they_came_from() {
    let manifest = manifest();
    assert_eq!(manifest.init().target.path, PathBuf::from("leptos-icons/Cargo.toml"));
    assert_eq!(manifest.remove().target, &manifest);
    assert_eq!(manifest.append_features(Vec::new()).target, &manifest);
}

#[test]
fn failure_names_the_manifest_the_operation_and_the_fault() {
    let manifest = manifest();
    let plan = manifest.append_features(features(&["home"]));
    let failure = plan.failure(Fault::PermissionDenied);
    assert_eq!(failure.target, &manifest);
    assert_eq!(failure.operation, Operation::AppendFeatures);
    assert_eq!(failure.fault, Fault::PermissionDenied);
}

#[test]
fn failure_hands_every_fault_on_as_it_came() {
    let manifest = manifest();
    let plan = manifest.init();
    for fault in [Fault::AlreadyExists, Fault::NotFound, Fault::PermissionDenied, Fault::Other] {
        let failure = plan.failure(fault);
        assert_eq!(failure.fault, fault);
        assert_eq!(failure.operation, Operation::Init);
        assert_eq!(failure.target.path, manifest.path);
    }
}
