//! Composite type descriptors: named fields at explicit byte offsets.

use crate::error::Error;
use crate::types::Type;
use vstd::prelude::*;

verus! {

/// One field of a struct descriptor: a name, a byte offset, and a type.
/// A field's byte range is `[offset, offset + type.size())`.
#[derive(Debug)]
pub struct StructField {
    name: String,
    offset: usize,
    type_: Type,
}

impl StructField {
    /// The field's name, as a character sequence.
    pub closed spec fn spec_name(&self) -> Seq<char> {
        self.name@
    }

    pub closed spec fn spec_offset(&self) -> int {
        self.offset as int
    }

    pub closed spec fn spec_type(&self) -> Type {
        self.type_
    }

    /// One past the last byte offset the field occupies.
    pub closed spec fn spec_end(&self) -> int
        decreases self,
    {
        self.offset + self.type_.spec_size()
    }

    /// A field's byte range must stay within addressable offsets.
    #[verifier::type_invariant]
    pub closed spec fn spec_wf(&self) -> bool {
        0 <= self.spec_end() <= usize::MAX
    }

    /// Whether the byte offset `i` falls within this field's byte range.
    pub open spec fn spec_contains_offset(&self, i: int) -> bool {
        self.spec_offset() <= i < self.spec_end()
    }

    /// Whether the byte ranges of the two fields share at least one offset.
    pub open spec fn spec_overlaps(&self, other: &StructField) -> bool {
        exists|i: int| self.spec_contains_offset(i) && #[trigger] other.spec_contains_offset(i)
    }

    pub fn new(name: String, offset: usize, type_: Type) -> (r: StructField)
        requires
            offset + type_.spec_size() <= usize::MAX,
        ensures
            r.spec_name() == name@,
            r.spec_offset() == offset as int,
            r.spec_type() == type_,
    {
        proof {
            crate::types::lemma_type_size_nonneg(&type_);
        }
        StructField { name, offset, type_ }
    }

    pub fn name(&self) -> (r: &str)
        ensures
            r@ == self.spec_name(),
    {
        self.name.as_str()
    }

    pub fn offset(&self) -> (r: usize)
        ensures
            r as int == self.spec_offset(),
    {
        self.offset
    }

    pub fn type_(&self) -> (r: &Type)
        ensures
            *r == self.spec_type(),
    {
        &self.type_
    }

    /// Whether the given byte offset falls within this field's byte range.
    pub fn in_field(&self, offset: usize) -> (r: bool)
        ensures
            r == (self.spec_offset() <= offset && offset < self.spec_end()),
    {
        proof {
            use_type_invariant(self);
            crate::types::lemma_type_size_nonneg(&self.type_);
        }
        offset >= self.offset && offset < self.offset + self.type_.size()
    }

    /// Whether this field's byte range intersects the other field's byte
    /// range at any single byte.
    pub fn overlaps(&self, other: &StructField) -> (r: bool)
        ensures
            r == self.spec_overlaps(other),
    {
        proof {
            use_type_invariant(self);
            use_type_invariant(other);
            crate::types::lemma_type_size_nonneg(&self.type_);
            crate::types::lemma_type_size_nonneg(&other.type_);
        }
        let self_end = self.offset + self.type_.size();
        let other_end = other.offset + other.type_.size();
        let r = self.offset < other_end && other.offset < self_end && self.offset < self_end
            && other.offset < other_end;
        proof {
            if r {
                let w: int = if self.spec_offset() >= other.spec_offset() {
                    self.spec_offset()
                } else {
                    other.spec_offset()
                };
                assert(self.spec_contains_offset(w) && other.spec_contains_offset(w));
            }
        }
        r
    }
}

/// The total span of a field sequence: the greatest field end, or 0 when
/// there are no fields.
pub open spec fn spec_fields_span(fs: Seq<StructField>) -> int
    decreases fs,
{
    if fs.len() == 0 {
        0
    } else {
        let rest = spec_fields_span(fs.subrange(0, fs.len() - 1));
        let last = fs[fs.len() - 1].spec_end();
        if last > rest {
            last
        } else {
            rest
        }
    }
}

pub proof fn lemma_fields_span_nonneg(fs: Seq<StructField>)
    ensures
        spec_fields_span(fs) >= 0,
    decreases fs.len(),
{
    if fs.len() > 0 {
        lemma_fields_span_nonneg(fs.subrange(0, fs.len() - 1));
    }
}

/// No struct has a negative size.
pub proof fn lemma_struct_size_nonneg(s: &Struct)
    ensures
        s.spec_size() >= 0,
{
    lemma_fields_span_nonneg(s.spec_fields());
}

/// A struct's size is the span of its fields: the greatest field end, or 0
/// when there are none. With `push`'s contract this pins the size of any
/// concretely built struct; an empty one has size 0, and fields at offsets
/// 0 (four bytes) and 4 (two bytes) give size 6.
pub proof fn lemma_struct_size_is_span(s: &Struct)
    ensures
        s.spec_size() == spec_fields_span(s.spec_fields()),
{
}

/// A field's end is its offset plus its type's size.
pub proof fn lemma_field_end(f: &StructField)
    ensures
        f.spec_end() == f.spec_offset() + f.spec_type().spec_size(),
{
}

/// A field found by name is one of the sequence's fields.
pub proof fn lemma_find_field_mem(fs: Seq<StructField>, name: Seq<char>)
    ensures
        match spec_find_field(fs, name) {
            Some(f) => exists|i: int| 0 <= i < fs.len() && fs[i] == f,
            None => true,
        },
    decreases fs.len(),
{
    if fs.len() == 0 {
    } else if fs[0].spec_name() == name {
        assert(fs[0] == spec_find_field(fs, name).unwrap());
    } else {
        let tail = fs.subrange(1, fs.len() as int);
        lemma_find_field_mem(tail, name);
        match spec_find_field(tail, name) {
            Some(f) => {
                let i = choose|i: int| 0 <= i < tail.len() && tail[i] == f;
                assert(fs[i + 1] == f);
            },
            None => {
            },
        }
    }
}

/// Every field's end lies within the sequence's span.
pub proof fn lemma_field_end_le_span(fs: Seq<StructField>, i: int)
    requires
        0 <= i < fs.len(),
    ensures
        fs[i].spec_end() <= spec_fields_span(fs),
    decreases fs.len(),
{
    if i < fs.len() - 1 {
        let sub = fs.subrange(0, fs.len() - 1);
        assert(sub[i] == fs[i]);
        lemma_field_end_le_span(sub, i);
    }
}

/// A field found by name in a well-formed struct ends within the struct's
/// size, and within addressable offsets.
pub proof fn lemma_get_field_end(s: &Struct, name: Seq<char>)
    requires
        s.spec_wf(),
    ensures
        match s.spec_get_field(name) {
            Some(f) => f.spec_end() <= s.spec_size() && f.spec_end() <= usize::MAX,
            None => true,
        },
{
    lemma_find_field_mem(s.spec_fields(), name);
    match s.spec_get_field(name) {
        Some(f) => {
            let i = choose|i: int| 0 <= i < s.spec_fields().len() && s.spec_fields()[i] == f;
            lemma_field_end_le_span(s.spec_fields(), i);
        },
        None => {
        },
    }
}

/// An insertion-ordered sequence of non-overlapping, uniquely named fields.
/// Fields are append-only; a rejected append leaves the descriptor unchanged.
#[derive(Debug)]
pub struct Struct {
    fields: Vec<StructField>,
}

impl Struct {
    pub closed spec fn spec_fields(&self) -> Seq<StructField> {
        self.fields@
    }

    /// The struct's total size: the greatest field end, or 0 when empty.
    pub closed spec fn spec_size(&self) -> int
        decreases self,
    {
        spec_fields_span(self.fields@)
    }

    /// Layout invariant: every field's range stays addressable, no two
    /// fields share a name, and no two fields' byte ranges intersect.
    #[verifier::type_invariant]
    pub closed spec fn spec_wf(&self) -> bool {
        let fs = self.fields@;
        (forall|i: int| 0 <= i < fs.len() ==> (#[trigger] fs[i]).spec_end() <= usize::MAX)
            && (forall|i: int, j: int|
            #![trigger fs[i], fs[j]]
            0 <= i < j < fs.len() ==> fs[i].spec_name() != fs[j].spec_name() && !fs[i]
                .spec_overlaps(&fs[j]))
    }

    /// The first field with the given name, if any.
    pub open spec fn spec_get_field(&self, name: Seq<char>) -> Option<StructField> {
        spec_find_field(self.spec_fields(), name)
    }

    pub fn new() -> (r: Struct)
        ensures
            r.spec_fields().len() == 0,
    {
        Struct { fields: Vec::new() }
    }

    pub fn fields(&self) -> (r: &Vec<StructField>)
        ensures
            r@ == self.spec_fields(),
    {
        &self.fields
    }

    /// A struct fits within another exactly when it is no larger.
    pub fn fits_within(&self, other: &Struct) -> (r: bool)
        ensures
            r == (self.spec_size() <= other.spec_size()),
    {
        self.size() <= other.size()
    }

    pub fn size(&self) -> (r: usize)
        ensures
            r as int == self.spec_size(),
        decreases *self,
    {
        proof {
            use_type_invariant(self);
        }
        let mut max: usize = 0;
        let mut i: usize = 0;
        proof {
            lemma_fields_span_nonneg(self.fields@.subrange(0, 0));
        }
        while i < self.fields.len()
            invariant
                0 <= i <= self.fields@.len(),
                self.spec_wf(),
                max as int == spec_fields_span(self.fields@.subrange(0, i as int)),
            decreases self.fields@.len() - i,
        {
            proof {
                use_type_invariant(self);
                crate::types::lemma_type_size_nonneg(&self.fields@[i as int].type_);
                assert(self.fields@.subrange(0, i + 1).subrange(0, i as int) =~= self.fields@
                    .subrange(0, i as int));
                assert(self.fields@.subrange(0, i + 1)[i as int] == self.fields@[i as int]);
            }
            let f = &self.fields[i];
            let end = f.offset + f.type_.size();
            if end > max {
                max = end;
            }
            i += 1;
        }
        proof {
            assert(self.fields@.subrange(0, self.fields@.len() as int) =~= self.fields@);
        }
        max
    }

    pub fn is_empty(&self) -> (r: bool)
        ensures
            r == (self.spec_fields().len() == 0),
    {
        self.fields.len() == 0
    }

    /// Appends a field after checking it against every existing field.
    /// The first existing field in insertion order that conflicts decides
    /// the error: a shared name gives `StructDuplicateName`, an intersecting
    /// byte range gives `OverlappingFields`. On any error the field list is
    /// unchanged.
    pub fn push(&mut self, field: StructField) -> (r: Result<(), Error>)
        ensures
            match r {
                Ok(()) => {
                    &&& final(self).spec_fields() == old(self).spec_fields().push(field)
                    &&& forall|i: int|
                        0 <= i < old(self).spec_fields().len() ==> !spec_push_conflict(
                            #[trigger] old(self).spec_fields()[i],
                            field,
                        )
                },
                Err(e) => {
                    &&& *final(self) == *old(self)
                    &&& exists|i: int|
                        {
                            &&& 0 <= i < old(self).spec_fields().len()
                            &&& spec_push_conflict(#[trigger] old(self).spec_fields()[i], field)
                            &&& forall|j: int|
                                0 <= j < i ==> !spec_push_conflict(
                                    #[trigger] old(self).spec_fields()[j],
                                    field,
                                )
                            &&& if old(self).spec_fields()[i].spec_name() == field.spec_name() {
                                e matches Error::StructDuplicateName(s) && s@ == field.spec_name()
                            } else {
                                e is OverlappingFields
                            }
                        }
                },
            },
    {
        proof {
            use_type_invariant(&*self);
            use_type_invariant(&field);
        }
        let ghost fs = self.fields@;
        let mut i: usize = 0;
        while i < self.fields.len()
            invariant
                0 <= i <= fs.len(),
                self.fields@ == fs,
                self.spec_wf(),
                field.spec_wf(),
                forall|j: int| 0 <= j < i ==> !spec_push_conflict(#[trigger] fs[j], field),
            decreases fs.len() - i,
        {
            let existing = &self.fields[i];
            if existing.name == field.name {
                let err = Error::StructDuplicateName(field.name().to_owned());
                proof {
                    let fsg = old(self).spec_fields();
                    assert(fsg =~= fs);
                    assert(spec_push_conflict(fsg[i as int], field));
                    assert(forall|j: int| 0 <= j < i ==> !spec_push_conflict(#[trigger] fsg[j], field));
                    assert(err matches Error::StructDuplicateName(s) && s@ == field.spec_name());
                }
                return Err(err);
            } else if field.overlaps(existing) {
                proof {
                    let fsg = old(self).spec_fields();
                    assert(fsg =~= fs);
                    assert(spec_push_conflict(fsg[i as int], field));
                    assert(fsg[i as int].spec_name() != field.spec_name());
                    assert(forall|j: int| 0 <= j < i ==> !spec_push_conflict(#[trigger] fsg[j], field));
                }
                return Err(Error::OverlappingFields);
            }
            i += 1;
        }
        let mut fields: Vec<StructField> = Vec::new();
        core::mem::swap(&mut fields, &mut self.fields);
        fields.push(field);
        core::mem::swap(&mut fields, &mut self.fields);
        proof {
            let nfs = self.fields@;
            assert forall|a: int, b: int|
                #![trigger nfs[a], nfs[b]]
                0 <= a < b < nfs.len() implies nfs[a].spec_name() != nfs[b].spec_name() && !nfs[a]
                .spec_overlaps(&nfs[b]) by {
                if b == nfs.len() - 1 {
                    assert(!spec_push_conflict(fs[a], field));
                }
            }
        }
        Ok(())
    }

    /// Looks up the first field with the given name.
    pub fn get_field(&self, name: &str) -> (r: Option<&StructField>)
        ensures
            match r {
                Some(f) => self.spec_get_field(name@) == Some(*f),
                None => self.spec_get_field(name@) is None,
            },
    {
        let owned: String = name.to_owned();
        let mut i: usize = 0;
        proof {
            assert(self.spec_fields().subrange(0, self.spec_fields().len() as int)
                =~= self.spec_fields());
        }
        while i < self.fields.len()
            invariant
                0 <= i <= self.spec_fields().len(),
                owned@ == name@,
                spec_find_field(self.spec_fields().subrange(i as int, self.spec_fields().len() as int), name@)
                    == self.spec_get_field(name@),
                forall|j: int| 0 <= j < i ==> (#[trigger] self.spec_fields()[j]).spec_name() != name@,
            decreases self.spec_fields().len() - i,
        {
            proof {
                let tail = self.spec_fields().subrange(i as int, self.spec_fields().len() as int);
                assert(tail[0] == self.spec_fields()[i as int]);
                assert(tail.subrange(1, tail.len() as int) =~= self.spec_fields().subrange(
                    i + 1,
                    self.spec_fields().len() as int,
                ));
            }
            if self.fields[i].name == owned {
                return Some(&self.fields[i]);
            }
            i += 1;
        }
        proof {
            assert(self.spec_fields().subrange(i as int, self.spec_fields().len() as int)
                =~= Seq::<StructField>::empty());
        }
        None
    }
}

/// Whether appending `field` to a struct already holding `existing` must be
/// rejected: they share a name or their byte ranges intersect.
pub open spec fn spec_push_conflict(existing: StructField, field: StructField) -> bool {
    existing.spec_name() == field.spec_name() || field.spec_overlaps(&existing)
}

/// The first field in `fs` named `name`, if any.
pub open spec fn spec_find_field(fs: Seq<StructField>, name: Seq<char>) -> Option<StructField>
    decreases fs.len(),
{
    if fs.len() == 0 {
        None
    } else if fs[0].spec_name() == name {
        Some(fs[0])
    } else {
        spec_find_field(fs.subrange(1, fs.len() as int), name)
    }
}

impl Default for Struct {
    fn default() -> (r: Struct)
        ensures
            r.spec_fields().len() == 0,
    {
        Struct::new()
    }
}

} // verus!
