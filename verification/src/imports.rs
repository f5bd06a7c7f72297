//! Import descriptors and the registry that holds them.

use vstd::prelude::*;

use crate::types::FunctionType;
use crate::types::SignatureView;

verus! {

/// The two ways an operation on descriptors or registries can fail.
#[derive(Clone, Copy, PartialEq, Eq, Structural, Debug)]
pub enum ImportError {
    /// `signature` was asked of a descriptor that is not a function import.
    NotAFunction,
    /// `with_preset` was given a name outside the recognized set.
    UnknownPreset,
}

/// One import declaration: a function, global, memory or table that a
/// module expects its host to supply. Every variant carries the host module
/// name and the field name; only a function import carries a call signature.
#[derive(Clone, PartialEq, Eq, Debug)]
pub enum ImportType {
    Function(String, String, FunctionType),
    Global(String, String),
    Memory(String, String),
    Table(String, String),
}

/// The mathematical view of an import declaration, with strings abstracted
/// to character sequences.
pub enum ImportView {
    Function { module: Seq<char>, field: Seq<char>, signature: SignatureView },
    Global { module: Seq<char>, field: Seq<char> },
    Memory { module: Seq<char>, field: Seq<char> },
    Table { module: Seq<char>, field: Seq<char> },
}

impl ImportView {
    /// The host module name of the declaration.
    pub open spec fn module(self) -> Seq<char> {
        match self {
            ImportView::Function { module, .. } => module,
            ImportView::Global { module, .. } => module,
            ImportView::Memory { module, .. } => module,
            ImportView::Table { module, .. } => module,
        }
    }

    /// The field name of the declaration.
    pub open spec fn field(self) -> Seq<char> {
        match self {
            ImportView::Function { field, .. } => field,
            ImportView::Global { field, .. } => field,
            ImportView::Memory { field, .. } => field,
            ImportView::Table { field, .. } => field,
        }
    }
}

impl View for ImportType {
    type V = ImportView;

    open spec fn view(&self) -> ImportView {
        match self {
            ImportType::Function(module, field, signature) => ImportView::Function {
                module: module@,
                field: field@,
                signature: signature@,
            },
            ImportType::Global(module, field) => ImportView::Global {
                module: module@,
                field: field@,
            },
            ImportType::Memory(module, field) => ImportView::Memory {
                module: module@,
                field: field@,
            },
            ImportType::Table(module, field) => ImportView::Table {
                module: module@,
                field: field@,
            },
        }
    }
}

impl ImportType {
    /// The host module name. Total: every variant carries one.
    pub fn module(&self) -> (r: &str)
        ensures
            r@ == self@.module(),
    {
        match self {
            ImportType::Function(module, _, _) => module.as_str(),
            ImportType::Global(module, _)
            | ImportType::Memory(module, _)
            | ImportType::Table(module, _) => module.as_str(),
        }
    }

    /// The field name. Total: every variant carries one.
    pub fn field(&self) -> (r: &str)
        ensures
            r@ == self@.field(),
    {
        match self {
            ImportType::Function(_, field, _) => field.as_str(),
            ImportType::Global(_, field)
            | ImportType::Memory(_, field)
            | ImportType::Table(_, field) => field.as_str(),
        }
    }

    /// The call signature of a function import; any other kind of import
    /// has none, and the call fails with `NotAFunction`.
    pub fn signature(&self) -> (r: Result<&FunctionType, ImportError>)
        ensures
            match r {
                Ok(signature) => self@ matches ImportView::Function { signature: s, .. }
                    && signature@ == s,
                Err(e) => !(self@ is Function) && e == ImportError::NotAFunction,
            },
    {
        match self {
            ImportType::Function(_, _, signature) => Ok(signature),
            _ => Err(ImportError::NotAFunction),
        }
    }
}

/// An ordered, immutable collection of import declarations. Insertion order
/// is meaningful: it decides which descriptor a field-name lookup returns
/// when several share a field name.
pub struct ImportList(pub Vec<ImportType>);

impl View for ImportList {
    type V = Seq<ImportView>;

    open spec fn view(&self) -> Seq<ImportView> {
        Seq::new(self.0@.len(), |i: int| self.0@[i]@)
    }
}

/// The first declaration at or after position `i` whose field name is
/// `name`, scanning in insertion order; `None` when no such entry exists.
pub open spec fn spec_lookup_from(s: Seq<ImportType>, name: Seq<char>, i: int) -> Option<
    ImportType,
>
    decreases s.len() - i,
{
    if i < 0 || i >= s.len() {
        None
    } else if s[i]@.field() == name {
        Some(s[i])
    } else {
        spec_lookup_from(s, name, i + 1)
    }
}

/// The first declaration in `s` whose field name is `name`.
pub open spec fn spec_lookup(s: Seq<ImportType>, name: Seq<char>) -> Option<ImportType> {
    spec_lookup_from(s, name, 0)
}

/// When position `i` holds the earliest entry with field name `name`, the
/// scan started at or before `i` finds exactly that entry: the one inserted
/// first wins, whatever stands behind it.
pub proof fn lemma_lookup_from_first_match(s: Seq<ImportType>, name: Seq<char>, j: int, i: int)
    requires
        0 <= j <= i < s.len(),
        s[i]@.field() == name,
        forall|k: int| j <= k < i ==> s[k]@.field() != name,
    ensures
        spec_lookup_from(s, name, j) == Some(s[i]),
    decreases i - j,
{
    if j < i {
        lemma_lookup_from_first_match(s, name, j + 1, i);
    }
}

/// When two declarations share a field name, a lookup of that name returns
/// the one that was inserted first.
pub proof fn lemma_lookup_first_wins(s: Seq<ImportType>, name: Seq<char>, i: int)
    requires
        0 <= i < s.len(),
        s[i]@.field() == name,
        forall|k: int| 0 <= k < i ==> s[k]@.field() != name,
    ensures
        spec_lookup(s, name) == Some(s[i]),
{
    lemma_lookup_from_first_match(s, name, 0, i);
}

/// A scan over entries none of which carries the field name finds nothing.
pub proof fn lemma_lookup_from_no_match(s: Seq<ImportType>, name: Seq<char>, j: int)
    requires
        forall|k: int| j <= k < s.len() ==> s[k]@.field() != name,
    ensures
        spec_lookup_from(s, name, j) is None,
    decreases s.len() - j,
{
    if 0 <= j < s.len() {
        lemma_lookup_from_no_match(s, name, j + 1);
    }
}

/// A lookup on the empty registry returns none, whatever the name.
pub proof fn lemma_lookup_empty(name: Seq<char>)
    ensures
        spec_lookup(Seq::<ImportType>::empty(), name) is None,
{
    lemma_lookup_from_no_match(Seq::<ImportType>::empty(), name, 0);
}

impl ImportList {
    /// The declarations, in insertion order.
    pub fn entries(&self) -> (r: &Vec<ImportType>)
        ensures
            r == &self.0,
    {
        &self.0
    }

    /// Builds a registry directly from a caller-supplied ordered list.
    /// Never fails, and keeps the list exactly as given.
    pub fn with_entries(entries: Vec<ImportType>) -> (r: ImportList)
        ensures
            r == ImportList(entries),
    {
        ImportList(entries)
    }

    /// Scans the entries in insertion order and returns the first
    /// declaration whose field name equals `name` exactly; none when no
    /// entry matches. Lookup is keyed by field name only: the host module
    /// name is ignored, so of two entries that share a field name across
    /// modules, the earliest-inserted one wins.
    pub fn lookup_by_field(&self, name: &str) -> (r: Option<&ImportType>)
        ensures
            match r {
                Some(import) => spec_lookup(self.0@, name@) == Some(*import),
                None => spec_lookup(self.0@, name@) is None,
            },
    {
        let key: String = name.to_owned();
        let n: usize = self.0.len();
        let mut i: usize = 0;
        while i < n
            invariant
                n == self.0@.len(),
                0 <= i <= n,
                key@ == name@,
                spec_lookup(self.0@, name@) == spec_lookup_from(self.0@, name@, i as int),
            decreases n - i,
        {
            let entry = &self.0[i];
            let hit: bool = match entry {
                ImportType::Function(_, field, _) => *field == key,
                ImportType::Global(_, field)
                | ImportType::Memory(_, field)
                | ImportType::Table(_, field) => *field == key,
            };
            if hit {
                return Some(entry);
            }
            i = i + 1;
        }
        None
    }
}

/// Round trip: the registry built from a list holds exactly that list, so
/// reading its entries back yields the list unchanged, in the same order.
pub proof fn lemma_with_entries_round_trip(entries: Vec<ImportType>)
    ensures
        ImportList(entries).0 == entries,
        ImportList(entries)@ == Seq::new(entries@.len(), |i: int| entries@[i]@),
{
}

} // verus!
