//! A kernel's `Cargo.toml`, held as a `toml_edit` document.
//!
//! Each method makes one `toml_edit` edit or lookup and records it as an [`Edit`].
//! What `toml_edit` makes of a text and a list of edits is not restated here: the
//! outcomes are named by specification functions of the manifest's text and the
//! edits made so far, on which alone they depend. A `Manifest` is only ever made by
//! `Manifest::parse`, and its fields are only changed by these methods, so its
//! document is always the parse of the text it keeps with its edits applied.
use toml_edit::{InlineTable, Item, Value};
use vstd::prelude::*;

verus! {

#[verifier::external_type_specification]
#[verifier::external_body]
pub struct ExDocumentMut(toml_edit::DocumentMut);

/// One `toml_edit` call chain made on a manifest. Each starts by reaching the item
/// `doc[table].get_mut(key)` (`IndexMut` on the document, then `Item::get_mut`, which
/// both insert a missing key) and, where it names an `entry`, looks that entry up in
/// the item taken as a table (`as_table_like_mut`, `TableLike::get_mut`); a lookup
/// that finds nothing ends the chain there.
pub enum Edit {
    /// The reach alone.
    Reach { table: Seq<char>, key: Seq<char> },
    /// `Item::or_insert` of an empty `Table` on the item.
    OrInsertTable { table: Seq<char>, key: Seq<char> },
    /// `TableLike::remove` of `entry` from the item taken as a table.
    Remove { table: Seq<char>, key: Seq<char>, entry: Seq<char> },
    /// `TableLike::entry(entry)` and `Entry::or_insert` of an empty `InlineTable`
    /// value, in the item taken as a table.
    OrInsertInlineTable { table: Seq<char>, key: Seq<char>, entry: Seq<char> },
    /// `Item::get_mut(field)` on the entry, and the string `value` stored there with
    /// `toml_edit::value`.
    SetString {
        table: Seq<char>,
        key: Seq<char>,
        entry: Seq<char>,
        field: Seq<char>,
        value: Seq<char>,
    },
    /// `Item::as_inline_table_mut` on the entry, and `InlineTable::fmt` on it.
    FormatInline { table: Seq<char>, key: Seq<char>, entry: Seq<char> },
}

/// What an item of a TOML document is.
#[derive(Debug, Clone, Copy, PartialEq, Eq, Structural)]
pub enum ItemKind {
    /// A lookup on the way to the item found nothing.
    Unreachable,
    /// `Item::None`: nothing is stored there yet.
    Absent,
    /// A table: `Item::Table`, or `Item::Value` holding an inline table.
    TableLike,
    /// Any other value, or an array of tables.
    Other,
}

/// Whether `toml_edit` parses `text` as a TOML document.
pub uninterp spec fn spec_manifest_parses(text: Seq<char>) -> bool;

/// The kind of `doc[table].get_mut(key)` in the parse of `text` after `edits`.
pub uninterp spec fn spec_item_kind(
    text: Seq<char>,
    edits: Seq<Edit>,
    table: Seq<char>,
    key: Seq<char>,
) -> ItemKind;

/// The kind of the entry `entry` of the item `doc[table].get_mut(key)`, taken as a
/// table, in the parse of `text` after `edits`.
pub uninterp spec fn spec_entry_kind(
    text: Seq<char>,
    edits: Seq<Edit>,
    table: Seq<char>,
    key: Seq<char>,
    entry: Seq<char>,
) -> ItemKind;

/// The text that `toml_edit` renders for the parse of `text` after `edits`.
pub uninterp spec fn spec_render(text: Seq<char>, edits: Seq<Edit>) -> Seq<char>;

/// A parsed manifest, with the text it was parsed from and the edits made to it.
pub(crate) struct Manifest {
    doc: toml_edit::DocumentMut,
    source: String,
    edits: Ghost<Seq<Edit>>,
}

impl Manifest {
    /// The text this manifest was parsed from.
    pub(crate) closed spec fn spec_source(self) -> Seq<char> {
        self.source@
    }

    /// The edits made to this manifest since it was parsed, in order.
    pub(crate) closed spec fn spec_edits(self) -> Seq<Edit> {
        self.edits@
    }

    /// Parses `text` with `<toml_edit::DocumentMut as FromStr>::from_str`.
    /// Claims: the parse succeeds exactly when `spec_manifest_parses(text)`.
    #[verifier::external_body]
    pub(crate) fn parse(text: &str) -> (r: Option<Manifest>)
        ensures
            r is Some <==> spec_manifest_parses(text@),
            r matches Some(m) ==> m.spec_source() == text@ && m.spec_edits() == Seq::<Edit>::empty(),
    {
        match text.parse::<toml_edit::DocumentMut>() {
            Ok(doc) => Some(Manifest { doc, source: text.to_string(), edits: Ghost(Seq::empty()) }),
            Err(_) => None,
        }
    }

    /// Reaches `doc[table].get_mut(key)` and tells what it is. Claims: the kind named
    /// by `spec_item_kind`, and the reach recorded.
    #[verifier::external_body]
    pub(crate) fn kind_at(&mut self, table: &str, key: &str) -> (k: ItemKind)
        ensures
            final(self).spec_source() == old(self).spec_source(),
            final(self).spec_edits() == old(self).spec_edits().push(Edit::Reach { table: table@, key: key@ }),
            k == spec_item_kind(old(self).spec_source(), old(self).spec_edits(), table@, key@),
    {
        let k = match self.doc[table].get_mut(key) {
            None => ItemKind::Unreachable,
            Some(Item::None) => ItemKind::Absent,
            Some(Item::Table(_)) | Some(Item::Value(Value::InlineTable(_))) => ItemKind::TableLike,
            Some(_) => ItemKind::Other,
        };
        proof { self.edits@ = self.edits@.push(Edit::Reach { table: table@, key: key@ }); }
        k
    }

    /// Reaches the item `doc[table].get_mut(key)` and tells what its entry `entry`
    /// is, with `TableLike::get_mut`. Claims: the kind named by `spec_entry_kind`,
    /// and the reach recorded.
    #[verifier::external_body]
    pub(crate) fn entry_kind(&mut self, table: &str, key: &str, entry: &str) -> (k: ItemKind)
        ensures
            final(self).spec_source() == old(self).spec_source(),
            final(self).spec_edits() == old(self).spec_edits().push(Edit::Reach { table: table@, key: key@ }),
            k == spec_entry_kind(old(self).spec_source(), old(self).spec_edits(), table@, key@, entry@),
    {
        let mut k = ItemKind::Unreachable;
        if let Some(item) = self.doc[table].get_mut(key) {
            if let Some(area) = item.as_table_like_mut() {
                k = match area.get_mut(entry) {
                    None => ItemKind::Unreachable,
                    Some(Item::None) => ItemKind::Absent,
                    Some(Item::Table(_)) | Some(Item::Value(Value::InlineTable(_))) => ItemKind::TableLike,
                    Some(_) => ItemKind::Other,
                };
            }
        }
        proof { self.edits@ = self.edits@.push(Edit::Reach { table: table@, key: key@ }); }
        k
    }

    /// `Item::or_insert` of an empty `Table` on `doc[table].get_mut(key)`. Claims:
    /// the edit recorded.
    #[verifier::external_body]
    pub(crate) fn or_insert_table(&mut self, table: &str, key: &str)
        ensures
            final(self).spec_source() == old(self).spec_source(),
            final(self).spec_edits() == old(self).spec_edits().push(Edit::OrInsertTable { table: table@, key: key@ }),
    {
        if let Some(item) = self.doc[table].get_mut(key) {
            item.or_insert(Item::Table(toml_edit::Table::new()));
        }
        proof { self.edits@ = self.edits@.push(Edit::OrInsertTable { table: table@, key: key@ }); }
    }

    /// `TableLike::remove` of `entry` from `doc[table].get_mut(key)`. Claims: the
    /// edit recorded.
    #[verifier::external_body]
    pub(crate) fn remove(&mut self, table: &str, key: &str, entry: &str)
        ensures
            final(self).spec_source() == old(self).spec_source(),
            final(self).spec_edits() == old(self).spec_edits().push(Edit::Remove { table: table@, key: key@, entry: entry@ }),
    {
        if let Some(item) = self.doc[table].get_mut(key) {
            if let Some(area) = item.as_table_like_mut() {
                area.remove(entry);
            }
        }
        proof { self.edits@ = self.edits@.push(Edit::Remove { table: table@, key: key@, entry: entry@ }); }
    }

    /// `TableLike::entry(entry)` and `Entry::or_insert` of an empty `InlineTable` in
    /// `doc[table].get_mut(key)`. Claims: the edit recorded.
    #[verifier::external_body]
    pub(crate) fn or_insert_inline_table(&mut self, table: &str, key: &str, entry: &str)
        ensures
            final(self).spec_source() == old(self).spec_source(),
            final(self).spec_edits() == old(self).spec_edits().push(Edit::OrInsertInlineTable { table: table@, key: key@, entry: entry@ }),
    {
        if let Some(item) = self.doc[table].get_mut(key) {
            if let Some(area) = item.as_table_like_mut() {
                area.entry(entry).or_insert(Item::Value(Value::InlineTable(InlineTable::new())));
            }
        }
        proof { self.edits@ = self.edits@.push(Edit::OrInsertInlineTable { table: table@, key: key@, entry: entry@ }); }
    }

    /// `Item::get_mut(field)` on the entry `entry` of `doc[table].get_mut(key)`, and
    /// `toml_edit::value(value)` stored there. Claims: the edit recorded.
    #[verifier::external_body]
    pub(crate) fn set_string(&mut self, table: &str, key: &str, entry: &str, field: &str, value: &str)
        ensures
            final(self).spec_source() == old(self).spec_source(),
            final(self).spec_edits() == old(self).spec_edits().push(Edit::SetString { table: table@, key: key@, entry: entry@, field: field@, value: value@ }),
    {
        if let Some(item) = self.doc[table].get_mut(key) {
            if let Some(area) = item.as_table_like_mut() {
                if let Some(slot) = area.get_mut(entry) {
                    if let Some(slot) = slot.get_mut(field) {
                        *slot = toml_edit::value(value);
                    }
                }
            }
        }
        proof { self.edits@ = self.edits@.push(Edit::SetString { table: table@, key: key@, entry: entry@, field: field@, value: value@ }); }
    }

    /// `Item::as_inline_table_mut` on the entry `entry` of `doc[table].get_mut(key)`,
    /// and `InlineTable::fmt` on it. Claims: the edit recorded.
    #[verifier::external_body]
    pub(crate) fn fmt_inline(&mut self, table: &str, key: &str, entry: &str)
        ensures
            final(self).spec_source() == old(self).spec_source(),
            final(self).spec_edits() == old(self).spec_edits().push(Edit::FormatInline { table: table@, key: key@, entry: entry@ }),
    {
        if let Some(item) = self.doc[table].get_mut(key) {
            if let Some(area) = item.as_table_like_mut() {
                if let Some(e) = area.get_mut(entry) {
                    if let Some(t) = e.as_inline_table_mut() {
                        t.fmt();
                    }
                }
            }
        }
        proof { self.edits@ = self.edits@.push(Edit::FormatInline { table: table@, key: key@, entry: entry@ }); }
    }

    /// Renders the document with `Display::to_string`. Claims: the text named by
    /// `spec_render`.
    #[verifier::external_body]
    pub(crate) fn render(&self) -> (s: String)
        ensures
            s@ == spec_render(self.spec_source(), self.spec_edits()),
    {
        self.doc.to_string()
    }
}

} // verus!
