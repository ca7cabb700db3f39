use toml_edit::TableLike;
use uhyve_interface::xtask::{patch_kernel_manifest, PatchError};

const KERNEL: &str = "[package]\nname = \"hermit-kernel\"\n\n[dependencies]\nuhyve-interface = \"0.1\"\n\n[patch.crates-io]\nother = { path = \"/other\" }\n";

const PATCHED: &str = "[package]\nname = \"hermit-kernel\"\n\n[patch.crates-io]\nuhyve-interface = { path = \"/old/uhyve-interface\" }\nother = { path = \"/other\" }\n";

fn parse(text: &str) -> toml_edit::DocumentMut {
    text.parse().unwrap()
}

#[test]
fn patch_sets_the_path() {
    let out = patch_kernel_manifest(KERNEL, false, "/work/uhyve-interface").unwrap();
    let doc = parse(&out);
    assert_eq!(
        doc["patch"]["crates-io"]["uhyve-interface"]["path"].as_str(),
        Some("/work/uhyve-interface")
    );
    assert_eq!(doc["patch"]["crates-io"]["other"]["path"].as_str(), Some("/other"));
    assert_eq!(doc["dependencies"]["uhyve-interface"].as_str(), Some("0.1"));
    assert_eq!(doc["package"]["name"].as_str(), Some("hermit-kernel"));
}

#[test]
fn patch_replaces_an_old_path() {
    let out = patch_kernel_manifest(PATCHED, false, "/new/uhyve-interface").unwrap();
    let doc = parse(&out);
    assert_eq!(
        doc["patch"]["crates-io"]["uhyve-interface"]["path"].as_str(),
        Some("/new/uhyve-interface")
    );
    assert!(!out.contains("/old/uhyve-interface"));
}

#[test]
fn undo_removes_the_entry_only() {
    let out = patch_kernel_manifest(PATCHED, true, "").unwrap();
    let doc = parse(&out);
    let area = doc["patch"]["crates-io"].as_table_like().unwrap();
    assert!(!area.contains_key("uhyve-interface"));
    assert!(area.contains_key("other"));
    assert!(!out.contains("/old/uhyve-interface"));
}

#[test]
fn undo_after_patch_drops_the_path() {
    let patched = patch_kernel_manifest(KERNEL, false, "/work/uhyve-interface").unwrap();
    let undone = patch_kernel_manifest(&patched, true, "").unwrap();
    let doc = parse(&undone);
    assert!(!doc["patch"]["crates-io"].as_table_like().unwrap().contains_key("uhyve-interface"));
    assert!(!undone.contains("/work/uhyve-interface"));
}

#[test]
fn patch_without_a_patch_section_succeeds() {
    let text = "[package]\nname = \"hermit-kernel\"\n";
    assert!(patch_kernel_manifest(text, false, "/work/uhyve-interface").is_ok());
    assert!(patch_kernel_manifest(text, true, "").is_ok());
}

#[test]
fn unparsable_manifest_is_refused() {
    assert_eq!(
        patch_kernel_manifest("[package\nname = ", false, "/p"),
        Err(PatchError::Unparsable)
    );
    assert_eq!(
        patch_kernel_manifest("= = =", true, ""),
        Err(PatchError::Unparsable)
    );
}

#[test]
fn patch_area_that_is_no_table_is_refused() {
    assert_eq!(
        patch_kernel_manifest("patch = 1\n", false, "/p"),
        Err(PatchError::PatchAreaUnreachable)
    );
    assert_eq!(
        patch_kernel_manifest("[[patch]]\nname = \"x\"\n", true, ""),
        Err(PatchError::PatchAreaUnreachable)
    );
    assert_eq!(
        patch_kernel_manifest("[patch]\ncrates-io = 5\n", false, "/p"),
        Err(PatchError::PatchAreaNotTable)
    );
    assert_eq!(
        patch_kernel_manifest("[patch]\ncrates-io = 5\n", true, ""),
        Err(PatchError::PatchAreaNotTable)
    );
}

#[test]
fn entry_that_is_no_table_is_refused_only_when_patching() {
    let text = "[patch.crates-io]\nuhyve-interface = \"1.0\"\n";
    assert_eq!(
        patch_kernel_manifest(text, false, "/p"),
        Err(PatchError::PatchEntryNotTable)
    );
    let out = patch_kernel_manifest(text, true, "").unwrap();
    assert!(!parse(&out)["patch"]["crates-io"]
        .as_table_like()
        .unwrap()
        .contains_key("uhyve-interface"));
}

#[test]
fn patch_into_an_inline_patch_area() {
    let text = "[patch]\ncrates-io = { other = { path = \"/other\" } }\n";
    let out = patch_kernel_manifest(text, false, "/w/uhyve-interface").unwrap();
    let doc = parse(&out);
    assert_eq!(
        doc["patch"]["crates-io"]["uhyve-interface"]["path"].as_str(),
        Some("/w/uhyve-interface")
    );
}
