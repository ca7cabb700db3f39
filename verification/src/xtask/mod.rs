//! The patch step of the developer tool: point a Hermit kernel's manifest at this
//! interface crate through `[patch.crates-io]`, or undo that.
use vstd::prelude::*;

pub mod manifest;

use self::manifest::{
    spec_entry_kind, spec_item_kind, spec_manifest_parses, spec_render, Edit, ItemKind, Manifest,
};

verus! {

/// Why a kernel manifest could not be patched.
#[derive(Debug, Clone, Copy, PartialEq, Eq)]
pub enum PatchError {
    /// The manifest is not a TOML document.
    Unparsable,
    /// `patch` is neither a table nor missing, so `patch.crates-io` cannot be looked up.
    PatchAreaUnreachable,
    /// `patch.crates-io` is not, and cannot be made, a table.
    PatchAreaNotTable,
    /// The existing `uhyve-interface` entry of `patch.crates-io` is no table, so it
    /// cannot hold a `path` key.
    PatchEntryNotTable,
}

/// Reaching the patch area, `doc["patch"]["crates-io"]`.
pub open spec fn spec_reach_area() -> Edit {
    Edit::Reach { table: "patch"@, key: "crates-io"@ }
}

/// The edits that make sure the patch area is a table: reach it, put an empty table
/// there if nothing is, and reach it again to see what it is now.
pub open spec fn spec_area_edits() -> Seq<Edit> {
    seq![
        spec_reach_area(),
        Edit::OrInsertTable { table: "patch"@, key: "crates-io"@ },
        spec_reach_area(),
    ]
}

/// Whether the patch area of the manifest `text` can be reached.
pub open spec fn spec_area_reachable(text: Seq<char>) -> bool {
    spec_item_kind(text, Seq::empty(), "patch"@, "crates-io"@) != ItemKind::Unreachable
}

/// Whether the patch area of the manifest `text`, after an empty table was put there
/// if nothing was, is a table.
pub open spec fn spec_area_is_table(text: Seq<char>) -> bool {
    spec_item_kind(text, spec_area_edits().take(2), "patch"@, "crates-io"@) == ItemKind::TableLike
}

/// The edits up to the `uhyve-interface` entry: the patch area's, then an empty
/// inline table put as that entry if there was none.
pub open spec fn spec_entry_edits() -> Seq<Edit> {
    spec_area_edits().push(
        Edit::OrInsertInlineTable {
            table: "patch"@,
            key: "crates-io"@,
            entry: "uhyve-interface"@,
        },
    )
}

/// Whether the `uhyve-interface` entry of the manifest `text`, after an empty inline
/// table was put there if there was none, is a table.
pub open spec fn spec_entry_is_table(text: Seq<char>) -> bool {
    spec_entry_kind(text, spec_entry_edits(), "patch"@, "crates-io"@, "uhyve-interface"@)
        == ItemKind::TableLike
}

/// All edits of the patch step: with `undo`, remove the `uhyve-interface` entry;
/// otherwise set its `path` to `path` and format it.
pub open spec fn spec_patch_edits(undo: bool, path: Seq<char>) -> Seq<Edit> {
    if undo {
        spec_area_edits().push(
            Edit::Remove { table: "patch"@, key: "crates-io"@, entry: "uhyve-interface"@ },
        )
    } else {
        spec_entry_edits().push(spec_reach_area()).push(
            Edit::SetString {
                table: "patch"@,
                key: "crates-io"@,
                entry: "uhyve-interface"@,
                field: "path"@,
                value: path,
            },
        ).push(Edit::FormatInline { table: "patch"@, key: "crates-io"@, entry: "uhyve-interface"@ })
    }
}

/// Setting the `path` of the `uhyve-interface` entry to `path`.
pub open spec fn spec_set_path(path: Seq<char>) -> Edit {
    Edit::SetString {
        table: "patch"@,
        key: "crates-io"@,
        entry: "uhyve-interface"@,
        field: "path"@,
        value: path,
    }
}

/// Removing the `uhyve-interface` entry.
pub open spec fn spec_remove_entry() -> Edit {
    Edit::Remove { table: "patch"@, key: "crates-io"@, entry: "uhyve-interface"@ }
}

/// Patches the kernel manifest `text`: with `undo`, removes the `uhyve-interface`
/// entry of `[patch.crates-io]`; otherwise sets that entry's `path` to
/// `uhyveif_path`. Returns the new manifest text.
pub fn patch_kernel_manifest(text: &str, undo: bool, uhyveif_path: &str) -> (r: Result<
    String,
    PatchError,
>)
    ensures
        r matches Err(PatchError::Unparsable) <==> !spec_manifest_parses(text@),
        r matches Err(PatchError::PatchAreaUnreachable) <==> spec_manifest_parses(text@)
            && !spec_area_reachable(text@),
        r matches Err(PatchError::PatchAreaNotTable) <==> spec_manifest_parses(text@)
            && spec_area_reachable(text@) && !spec_area_is_table(text@),
        r matches Err(PatchError::PatchEntryNotTable) <==> !undo && spec_manifest_parses(text@)
            && spec_area_reachable(text@) && spec_area_is_table(text@) && !spec_entry_is_table(
            text@,
        ),
        r matches Ok(s) ==> s@ == spec_render(text@, spec_patch_edits(undo, uhyveif_path@)),
        !undo ==> spec_patch_edits(undo, uhyveif_path@).contains(spec_set_path(uhyveif_path@)),
        forall|i: int|
            0 <= i < spec_patch_edits(undo, uhyveif_path@).len() && (#[trigger] spec_patch_edits(
                undo,
                uhyveif_path@,
            )[i]) is SetString ==> !undo && spec_patch_edits(undo, uhyveif_path@)[i]
                == spec_set_path(uhyveif_path@),
        undo ==> spec_patch_edits(undo, uhyveif_path@).contains(spec_remove_entry()),
{
    proof {
        lemma_patch_stores_exact_path(uhyveif_path@);
        lemma_undo_removes_entry(uhyveif_path@, uhyveif_path@);
    }
    let mut m = match Manifest::parse(text) {
        Some(m) => m,
        None => return Err(PatchError::Unparsable),
    };
    if m.kind_at("patch", "crates-io") == ItemKind::Unreachable {
        return Err(PatchError::PatchAreaUnreachable);
    }
    m.or_insert_table("patch", "crates-io");
    assert(m.spec_edits() =~= spec_area_edits().take(2));
    if m.kind_at("patch", "crates-io") != ItemKind::TableLike {
        return Err(PatchError::PatchAreaNotTable);
    }
    assert(m.spec_edits() =~= spec_area_edits());
    if undo {
        m.remove("patch", "crates-io", "uhyve-interface");
    } else {
        m.or_insert_inline_table("patch", "crates-io", "uhyve-interface");
        assert(m.spec_edits() =~= spec_entry_edits());
        if m.entry_kind("patch", "crates-io", "uhyve-interface") != ItemKind::TableLike {
            return Err(PatchError::PatchEntryNotTable);
        }
        m.set_string("patch", "crates-io", "uhyve-interface", "path", uhyveif_path);
        m.fmt_inline("patch", "crates-io", "uhyve-interface");
    }
    let s = m.render();
    assert(m.spec_edits() =~= spec_patch_edits(undo, uhyveif_path@));
    Ok(s)
}

/// The patch step stores exactly the path it is given: among its edits is setting
/// `patch.crates-io.uhyve-interface.path` to that path, and every string it sets is
/// that one.
pub proof fn lemma_patch_stores_exact_path(path: Seq<char>)
    ensures
        spec_patch_edits(false, path).contains(spec_set_path(path)),
        forall|i: int|
            0 <= i < spec_patch_edits(false, path).len() && (#[trigger] spec_patch_edits(
                false,
                path,
            )[i]) is SetString ==> spec_patch_edits(false, path)[i] == spec_set_path(path),
{
    assert(spec_patch_edits(false, path)[5] == spec_set_path(path));
}

/// Different paths make different patch steps: no part of the path is lost.
pub proof fn lemma_patch_edits_distinguish_paths(p1: Seq<char>, p2: Seq<char>)
    requires
        spec_patch_edits(false, p1) == spec_patch_edits(false, p2),
    ensures
        p1 == p2,
{
    assert(spec_patch_edits(false, p1)[5] == spec_set_path(p1));
    assert(spec_patch_edits(false, p2)[5] == spec_set_path(p2));
}

/// Undoing removes the `uhyve-interface` entry, sets no string, and does not depend
/// on the path.
pub proof fn lemma_undo_removes_entry(p1: Seq<char>, p2: Seq<char>)
    ensures
        spec_patch_edits(true, p1).contains(spec_remove_entry()),
        forall|i: int|
            0 <= i < spec_patch_edits(true, p1).len() ==> !((#[trigger] spec_patch_edits(
                true,
                p1,
            )[i]) is SetString),
        spec_patch_edits(true, p1) == spec_patch_edits(true, p2),
{
    assert(spec_patch_edits(true, p1)[3] == spec_remove_entry());
}

} // verus!
