use butler_registry::naming::{
    chain_of, find_bevy_butler, find_bevy_crate, path_in_umbrella, path_of_crate, prefixed,
    state_ident, system_set_ident, transform_chain, FoundCrate,
};

const SHA_OF_NOTHING: &str = "e3b0c44298fc1c149afbf4c8996fb92427ae41e4649b934ca495991b7852b855";
const SHA_OF_ABC: &str = "ba7816bf8f01cfea414140de5dae2223b00361a396177a9cb410ff61f20015ad";
const SHA_OF_HELLO: &str = "2cf24dba5fb0a30e26e83b2ac5b9e29e1b161e5c1fa7425e73043362938b9824";

fn strings(parts: &[&str]) -> Vec<String> {
    parts.iter().map(|p| p.to_string()).collect()
}

#[test]
fn prefix_comes_before_digest() {
    assert_eq!(prefixed("_butler_", "00ff"), "_butler_00ff");
    assert_eq!(prefixed("", ""), "");
    assert_eq!(prefixed("a", ""), "a");
}

#[test]
fn state_name_is_prefix_and_digest_of_both_texts() {
    assert_eq!(state_ident("a", "bc"), format!("_butler_state_{SHA_OF_ABC}"));
    assert_eq!(state_ident("abc", ""), format!("_butler_state_{SHA_OF_ABC}"));
    assert_eq!(state_ident("", ""), format!("_butler_state_{SHA_OF_NOTHING}"));
    assert_eq!(state_ident("hel", "lo"), format!("_butler_state_{SHA_OF_HELLO}"));
}

#[test]
fn system_set_name_is_prefix_and_digest_of_three_texts() {
    assert_eq!(system_set_ident("he", "l", "lo"), format!("_butler_sys_set_{SHA_OF_HELLO}"));
    assert_eq!(system_set_ident("", "", ""), format!("_butler_sys_set_{SHA_OF_NOTHING}"));
    assert_eq!(system_set_ident("", "abc", ""), format!("_butler_sys_set_{SHA_OF_ABC}"));
}

#[test]
fn different_texts_get_different_names() {
    assert_ne!(state_ident("MyPlugin", "<u8>"), state_ident("MyPlugin", "<u16>"));
    assert_ne!(state_ident("MyPlugin", ""), "MyPlugin");
    assert_eq!(state_ident("MyPlugin", "").len(), "_butler_state_".len() + 64);
}

#[test]
fn transforms_are_chained_with_dots() {
    assert_eq!(
        transform_chain(&strings(&["run_if(x)", "chain()", "after(y)"])),
        Some("run_if(x).chain().after(y)".to_string())
    );
    assert_eq!(transform_chain(&strings(&["chain()"])), Some("chain()".to_string()));
    assert_eq!(transform_chain(&strings(&["", ""])), Some(".".to_string()));
}

#[test]
fn no_transforms_no_chain() {
    assert_eq!(transform_chain(&[]), None);
    assert_eq!(transform_chain(&strings(&[""])), None);
    assert_eq!(chain_of(String::new()), None);
    assert_eq!(chain_of("a.b".to_string()), Some("a.b".to_string()));
}

#[test]
fn paths_through_the_umbrella_crate() {
    assert_eq!(path_in_umbrella(&FoundCrate::Itself, "app"), "crate::app");
    assert_eq!(path_in_umbrella(&FoundCrate::Name("bevy".to_string()), "app"), "::bevy::app");
    assert_eq!(path_of_crate(&FoundCrate::Itself), "crate");
    assert_eq!(path_of_crate(&FoundCrate::Name("bevy_app".to_string())), "::bevy_app");
}

#[test]
fn umbrella_crate_is_preferred() {
    let bevy = || Some(FoundCrate::Name("bevy".to_string()));
    let sub = || Some(FoundCrate::Name("bevy_app".to_string()));
    assert_eq!(find_bevy_crate(bevy(), sub(), "app"), Some("::bevy::app".to_string()));
    assert_eq!(find_bevy_crate(bevy(), None, "app"), Some("::bevy::app".to_string()));
    assert_eq!(find_bevy_crate(Some(FoundCrate::Itself), sub(), "ecs"), Some("crate::ecs".to_string()));
    assert_eq!(find_bevy_crate(None, sub(), "app"), Some("::bevy_app".to_string()));
    assert_eq!(find_bevy_crate(None, Some(FoundCrate::Itself), "app"), Some("crate".to_string()));
    assert_eq!(find_bevy_crate(None, None, "app"), None);
}

#[test]
fn runtime_path_is_trimmed() {
    assert_eq!(find_bevy_butler(&FoundCrate::Itself), "::bevy_butler");
    assert_eq!(find_bevy_butler(&FoundCrate::Name("my_butler".to_string())), "::my_butler");
    assert_eq!(find_bevy_butler(&FoundCrate::Name("  my_butler \n".to_string())), "::my_butler");
}
