//! Vertex layout description: deriving, from a record's field descriptor
//! table, the attribute bindings that tell the driver how the record's
//! memory layout maps onto shader inputs.
//!
//! A record is described field by field, in declaration order, each field
//! with its attribute-slot annotation, its component count and its component
//! type.  Generation computes the record's stride as the sum of the field
//! sizes and each field's offset as the running sum of the sizes before it,
//! and refuses to produce anything if a field lacks its slot annotation,
//! naming that field.

use vstd::prelude::*;

verus! {

/// The driver's code for a 32-bit float component.
pub const GL_FLOAT: u32 = 0x1406;

/// The type of one component of a vertex attribute.
#[derive(Copy, Clone, Debug, PartialEq, Eq, Structural)]
pub enum ComponentType {
    /// A 32-bit float, four bytes wide.
    Float32,
}

/// How many bytes one component of type `t` takes.
pub open spec fn spec_component_width(t: ComponentType) -> int {
    match t {
        ComponentType::Float32 => 4,
    }
}

/// The driver's code for component type `t`.
pub open spec fn spec_type_code(t: ComponentType) -> u32 {
    match t {
        ComponentType::Float32 => GL_FLOAT,
    }
}

impl ComponentType {
    /// How many bytes one component of this type takes.
    pub fn byte_width(&self) -> (r: u32)
        ensures
            r == spec_component_width(*self),
    {
        match self {
            ComponentType::Float32 => 4,
        }
    }

    /// The driver's code for this component type.
    pub fn gl_type_code(&self) -> (r: u32)
        ensures
            r == spec_type_code(*self),
    {
        match self {
            ComponentType::Float32 => GL_FLOAT,
        }
    }
}

/// One field of a vertex record: its name, its attribute-slot annotation if
/// it carries one, and the count and type of its components.
pub struct FieldLayout {
    pub name: String,
    pub location: Option<u32>,
    pub components: u32,
    pub component_type: ComponentType,
}

impl FieldLayout {
    /// An attribute describes one to four components.
    pub open spec fn wf(&self) -> bool {
        1 <= self.components <= 4
    }

    /// The field's byte size: component count times component width.
    pub open spec fn spec_byte_size(&self) -> int {
        self.components * spec_component_width(self.component_type)
    }

    /// The field's byte size: component count times component width.
    pub fn byte_size(&self) -> (r: u32)
        requires
            self.wf(),
        ensures
            r == self.spec_byte_size(),
    {
        self.components * self.component_type.byte_width()
    }
}

/// Every field of the table describes one to four components.
pub open spec fn wf_fields(fields: Seq<FieldLayout>) -> bool {
    forall|i: int| 0 <= i < fields.len() ==> (#[trigger] fields[i]).wf()
}

/// Every field of the table carries its slot annotation.
pub open spec fn all_located(fields: Seq<FieldLayout>) -> bool {
    forall|i: int| 0 <= i < fields.len() ==> (#[trigger] fields[i]).location is Some
}

/// The index of the first field lacking its slot annotation.
pub open spec fn first_unlocated(fields: Seq<FieldLayout>) -> int
    decreases fields.len(),
{
    if fields.len() == 0 {
        0
    } else if fields[0].location is None {
        0
    } else {
        1 + first_unlocated(fields.drop_first())
    }
}

/// The byte offset of field `i`: the sum of the sizes of the fields before
/// it, in declaration order.
pub open spec fn offset_of(fields: Seq<FieldLayout>, i: int) -> int
    decreases i,
{
    if i <= 0 {
        0
    } else {
        offset_of(fields, i - 1) + fields[i - 1].spec_byte_size()
    }
}

/// The record's stride: the byte distance between consecutive records, the
/// sum of all field sizes.
pub open spec fn record_stride(fields: Seq<FieldLayout>) -> int {
    offset_of(fields, fields.len() as int)
}

/// Offsets grow with the field index: field sizes are never negative.
pub proof fn lemma_offset_monotonic(fields: Seq<FieldLayout>, i: int, j: int)
    requires
        0 <= i <= j <= fields.len(),
    ensures
        offset_of(fields, i) <= offset_of(fields, j),
    decreases j - i,
{
    if i < j {
        lemma_offset_monotonic(fields, i, j - 1);
        assert(fields[j - 1].spec_byte_size() >= 0);
    }
}

/// The generated offsets are the running sums of the field sizes: the first
/// offset is zero, each later offset adds the byte size of the field before
/// it, and the stride is the sum of every field's byte size.
pub proof fn lemma_offsets_are_running_sums(fields: Seq<FieldLayout>, i: int)
    requires
        0 <= i < fields.len(),
    ensures
        offset_of(fields, 0) == 0,
        offset_of(fields, i + 1) == offset_of(fields, i) + fields[i].spec_byte_size(),
        record_stride(fields) == offset_of(fields, fields.len() as int),
{
}

/// When field `i` is the first to lack its slot annotation,
/// `first_unlocated` names exactly it.
proof fn lemma_first_unlocated(fields: Seq<FieldLayout>, i: int)
    requires
        0 <= i < fields.len(),
        fields[i].location is None,
        forall|k: int| 0 <= k < i ==> (#[trigger] fields[k]).location is Some,
    ensures
        first_unlocated(fields) == i,
    decreases i,
{
    if i > 0 {
        let rest = fields.drop_first();
        assert(forall|k: int| 0 <= k < rest.len() ==> rest[k] == fields[k + 1]);
        lemma_first_unlocated(rest, i - 1);
    }
}

/// One attribute binding the driver is to be given: enable the slot at
/// `location` and describe it with the component count and type code, no
/// normalization, and the record's stride and this field's offset.
#[derive(Copy, Clone, Debug, PartialEq, Eq, Structural)]
pub struct AttributeBinding {
    pub location: u32,
    pub components: u32,
    pub type_code: u32,
    pub normalized: bool,
    pub stride: u32,
    pub offset: u32,
}

/// The way layout generation can fail.
#[derive(Debug, PartialEq, Eq)]
pub enum LayoutError {
    /// A field lacks its attribute-slot annotation; carries that field's
    /// name.
    MissingLocation { field: String },
}

/// Generates the attribute bindings for a record described by `fields`: one
/// binding per field, in declaration order, each carrying the field's slot,
/// component count and type code, normalization off, the record's stride,
/// and the field's offset as the running sum of the sizes before it.  A
/// field without a slot annotation refuses generation, naming the first
/// such field; nothing is produced then.
pub fn vertex_attrib_pointers(fields: &Vec<FieldLayout>) -> (r: Result<
    Vec<AttributeBinding>,
    LayoutError,
>)
    requires
        wf_fields(fields@),
        record_stride(fields@) <= i32::MAX,
    ensures
        match r {
            Ok(binds) => {
                &&& all_located(fields@)
                &&& binds@.len() == fields@.len()
                &&& forall|i: int|
                    0 <= i < fields@.len() ==> {
                        let b = #[trigger] binds@[i];
                        let f = fields@[i];
                        &&& f.location matches Some(loc) && b.location == loc
                        &&& b.components == f.components
                        &&& b.type_code == spec_type_code(f.component_type)
                        &&& b.normalized == false
                        &&& b.stride == record_stride(fields@)
                        &&& b.offset == offset_of(fields@, i)
                    }
            },
            Err(e) => {
                &&& !all_located(fields@)
                &&& e matches LayoutError::MissingLocation { field } && field@ == fields@[
                    first_unlocated(fields@)
                ].name@
            },
        },
{
    let n: usize = fields.len();

    let mut stride: u32 = 0;
    let mut i: usize = 0;
    while i < n
        invariant
            i <= n,
            n == fields@.len(),
            wf_fields(fields@),
            record_stride(fields@) <= i32::MAX,
            stride == offset_of(fields@, i as int),
        decreases n - i,
    {
        let size = fields[i].byte_size();
        proof {
            lemma_offset_monotonic(fields@, i as int + 1, fields@.len() as int);
        }
        stride = stride + size;
        i = i + 1;
    }

    let mut binds: Vec<AttributeBinding> = Vec::new();
    let mut offset: u32 = 0;
    let mut i: usize = 0;
    while i < n
        invariant
            i <= n,
            n == fields@.len(),
            wf_fields(fields@),
            record_stride(fields@) <= i32::MAX,
            stride == record_stride(fields@),
            offset == offset_of(fields@, i as int),
            binds@.len() == i,
            forall|k: int| 0 <= k < i ==> (#[trigger] fields@[k]).location is Some,
            forall|k: int|
                0 <= k < i ==> {
                    let b = #[trigger] binds@[k];
                    let f = fields@[k];
                    &&& f.location matches Some(loc) && b.location == loc
                    &&& b.components == f.components
                    &&& b.type_code == spec_type_code(f.component_type)
                    &&& b.normalized == false
                    &&& b.stride == record_stride(fields@)
                    &&& b.offset == offset_of(fields@, k)
                },
        decreases n - i,
    {
        match fields[i].location {
            None => {
                proof {
                    lemma_first_unlocated(fields@, i as int);
                }
                return Err(LayoutError::MissingLocation { field: fields[i].name.clone() });
            },
            Some(loc) => {
                let size = fields[i].byte_size();
                binds.push(
                    AttributeBinding {
                        location: loc,
                        components: fields[i].components,
                        type_code: fields[i].component_type.gl_type_code(),
                        normalized: false,
                        stride,
                        offset,
                    },
                );
                proof {
                    lemma_offset_monotonic(fields@, i as int + 1, fields@.len() as int);
                }
                offset = offset + size;
                i = i + 1;
            },
        }
    }
    Ok(binds)
}

/// The field table of the documented triangle wire format: a position and a
/// colour, each three 32-bit float components, at slots zero and one, in
/// that order and tightly packed, so the record is 24 bytes.
pub fn triangle_vertex_layout() -> (r: Vec<FieldLayout>)
    ensures
        r@.len() == 2,
        wf_fields(r@),
        all_located(r@),
        r@[0].name@ == "pos"@,
        r@[0].location == Some(0u32),
        r@[0].components == 3,
        r@[0].component_type is Float32,
        r@[1].name@ == "clr"@,
        r@[1].location == Some(1u32),
        r@[1].components == 3,
        r@[1].component_type is Float32,
        record_stride(r@) == 24,
{
    let pos = FieldLayout {
        name: "pos".to_owned(),
        location: Some(0),
        components: 3,
        component_type: ComponentType::Float32,
    };
    let clr = FieldLayout {
        name: "clr".to_owned(),
        location: Some(1),
        components: 3,
        component_type: ComponentType::Float32,
    };
    let mut fields: Vec<FieldLayout> = Vec::new();
    fields.push(pos);
    fields.push(clr);
    proof {
        assert(fields@[0].spec_byte_size() == 12);
        assert(fields@[1].spec_byte_size() == 12);
        assert(offset_of(fields@, 0) == 0);
        assert(offset_of(fields@, 1) == 12);
        assert(offset_of(fields@, 2) == 24);
    }
    fields
}

/// The byte length of a buffer of `vertex_count` tightly packed records of
/// the given stride.
pub fn vertex_buffer_byte_len(vertex_count: usize, stride: u32) -> (r: usize)
    requires
        vertex_count * stride <= usize::MAX,
    ensures
        r == vertex_count * stride,
{
    vertex_count * (stride as usize)
}

} // verus!
