//! The declared signature of a model's input and output slots, and the text
//! that describes it.

use crate::text::{
    bracket_strings, bracketed, decimal, decimal_nat, digit_char, is_digit,
    lemma_decimal_nat_is_digits, lemma_views_push, render_int, views,
};
use vstd::prelude::*;

verus! {

/// The type of the values in a tensor.
#[derive(Clone, Copy, Debug, PartialEq, Eq, Structural)]
pub enum ElementType {
    Float32,
    Uint8,
    Int8,
    Uint16,
    Int16,
    Int32,
    Int64,
    String,
    Bool,
    Float16,
    Float64,
    Uint32,
    Uint64,
    Bfloat16,
    Complex64,
    Complex128,
    Float8E4M3FN,
    Float8E4M3FNUZ,
    Float8E5M2,
    Float8E5M2FNUZ,
    Uint4,
    Int4,
    Float4E2M1,
    Uint2,
    Int2,
    Float8E8M0,
    Undefined,
}

impl ElementType {
    /// The name under which the element type is written.
    pub open spec fn label(self) -> Seq<char> {
        match self {
            ElementType::Float32 => "float32"@,
            ElementType::Uint8 => "uint8"@,
            ElementType::Int8 => "int8"@,
            ElementType::Uint16 => "uint16"@,
            ElementType::Int16 => "int16"@,
            ElementType::Int32 => "int32"@,
            ElementType::Int64 => "int64"@,
            ElementType::String => "string"@,
            ElementType::Bool => "bool"@,
            ElementType::Float16 => "float16"@,
            ElementType::Float64 => "float64"@,
            ElementType::Uint32 => "uint32"@,
            ElementType::Uint64 => "uint64"@,
            ElementType::Bfloat16 => "bfloat16"@,
            ElementType::Complex64 => "complex64"@,
            ElementType::Complex128 => "complex128"@,
            ElementType::Float8E4M3FN => "float8e4m3fn"@,
            ElementType::Float8E4M3FNUZ => "float8e4m3fnuz"@,
            ElementType::Float8E5M2 => "float8e5m2"@,
            ElementType::Float8E5M2FNUZ => "float8e5m2fnuz"@,
            ElementType::Uint4 => "uint4"@,
            ElementType::Int4 => "int4"@,
            ElementType::Float4E2M1 => "float4e2m1"@,
            ElementType::Uint2 => "uint2"@,
            ElementType::Int2 => "int2"@,
            ElementType::Float8E8M0 => "float8e8m0"@,
            ElementType::Undefined => "undefined"@,
        }
    }

    /// The name under which the element type is written.
    pub fn name(&self) -> (s: &'static str)
        ensures
            s@ == self.label(),
    {
        match self {
            ElementType::Float32 => "float32",
            ElementType::Uint8 => "uint8",
            ElementType::Int8 => "int8",
            ElementType::Uint16 => "uint16",
            ElementType::Int16 => "int16",
            ElementType::Int32 => "int32",
            ElementType::Int64 => "int64",
            ElementType::String => "string",
            ElementType::Bool => "bool",
            ElementType::Float16 => "float16",
            ElementType::Float64 => "float64",
            ElementType::Uint32 => "uint32",
            ElementType::Uint64 => "uint64",
            ElementType::Bfloat16 => "bfloat16",
            ElementType::Complex64 => "complex64",
            ElementType::Complex128 => "complex128",
            ElementType::Float8E4M3FN => "float8e4m3fn",
            ElementType::Float8E4M3FNUZ => "float8e4m3fnuz",
            ElementType::Float8E5M2 => "float8e5m2",
            ElementType::Float8E5M2FNUZ => "float8e5m2fnuz",
            ElementType::Uint4 => "uint4",
            ElementType::Int4 => "int4",
            ElementType::Float4E2M1 => "float4e2m1",
            ElementType::Uint2 => "uint2",
            ElementType::Int2 => "int2",
            ElementType::Float8E8M0 => "float8e8m0",
            ElementType::Undefined => "undefined",
        }
    }
}

/// One dimension of a declared shape. A negative size marks a dimension that
/// the model leaves open; such a dimension may carry a symbolic name.
#[derive(Debug)]
pub struct Dimension {
    pub size: i64,
    pub symbol: String,
}

/// What a [`Dimension`] stands for.
pub struct DimensionView {
    pub size: int,
    pub symbol: Seq<char>,
}

impl View for Dimension {
    type V = DimensionView;

    open spec fn view(&self) -> DimensionView {
        DimensionView { size: self.size as int, symbol: self.symbol@ }
    }
}

impl DimensionView {
    /// Whether the model leaves the dimension open.
    pub open spec fn is_dynamic(self) -> bool {
        self.size < 0
    }

    /// A fixed dimension is written as its size, an open one as a question
    /// mark followed by its symbolic name, if it has one.
    pub open spec fn text(self) -> Seq<char> {
        if self.is_dynamic() {
            "?"@ + self.symbol
        } else {
            decimal(self.size)
        }
    }
}

/// A dimension that the model leaves open is never written like a fixed
/// one, whatever its symbolic name: its text begins with a question mark,
/// and the text of a fixed dimension holds digits only.
pub proof fn law_open_dimensions_are_marked(open: DimensionView, fixed: DimensionView)
    requires
        open.is_dynamic(),
        !fixed.is_dynamic(),
    ensures
        open.text()[0] == '?',
        forall|i: int| 0 <= i < fixed.text().len() ==> is_digit(#[trigger] fixed.text()[i]),
        open.text() != fixed.text(),
{
    reveal_strlit("?");
    assert(open.text()[0] == '?');
    lemma_decimal_nat_is_digits(fixed.size as nat);
    assert(fixed.text() == decimal_nat(fixed.size as nat));
    assert(!is_digit('?')) by {
        assert forall|d: int| 0 <= d < 10 implies '?' != #[trigger] digit_char(d) by {}
    }
    assert(is_digit(fixed.text()[0]));
}

impl Dimension {
    /// A dimension of a fixed size, or an open one without a name.
    pub fn new(size: i64) -> (d: Dimension)
        ensures
            d@ == (DimensionView { size: size as int, symbol: Seq::empty() }),
    {
        Dimension { size, symbol: String::new() }
    }

    /// An open dimension with a symbolic name.
    pub fn named(symbol: &str) -> (d: Dimension)
        ensures
            d@ == (DimensionView { size: -1, symbol: symbol@ }),
    {
        Dimension { size: -1, symbol: String::from_str(symbol) }
    }

    /// Whether the model leaves the dimension open.
    pub fn is_dynamic(&self) -> (b: bool)
        ensures
            b == self@.is_dynamic(),
    {
        self.size < 0
    }

    /// Writes the dimension.
    pub fn render(&self) -> (s: String)
        ensures
            s@ == self@.text(),
    {
        if self.size < 0 {
            let mut s = String::from_str("?");
            s.append(self.symbol.as_str());
            s
        } else {
            render_int(self.size)
        }
    }
}

/// The texts of the dimensions of a shape, in order.
pub open spec fn dimension_texts(dims: Seq<DimensionView>) -> Seq<Seq<char>> {
    Seq::new(dims.len(), |i: int| dims[i].text())
}

/// Writes a declared shape as a bracketed list of its dimensions.
pub fn render_dimensions(dims: &Vec<Dimension>) -> (s: String)
    ensures
        s@ == bracketed(dimension_texts(views(dims@))),
{
    let mut parts: Vec<String> = Vec::new();
    let mut i: usize = 0;
    assert(views(parts@) =~= dimension_texts(views(dims@.take(0))));
    while i < dims.len()
        invariant
            i <= dims.len(),
            views(parts@) == dimension_texts(views(dims@.take(i as int))),
        decreases dims.len() - i,
    {
        let part = dims[i].render();
        proof {
            lemma_views_push(parts@, part);
            assert(dims@.take(i as int + 1) =~= dims@.take(i as int).push(dims@[i as int]));
            lemma_views_push(dims@.take(i as int), dims@[i as int]);
            assert(dimension_texts(views(dims@.take(i as int)).push(dims@[i as int]@))
                =~= dimension_texts(views(dims@.take(i as int))).push(dims@[i as int]@.text()));
        }
        parts.push(part);
        i += 1;
    }
    assert(dims@.take(dims.len() as int) =~= dims@);
    bracket_strings(&parts)
}

/// What a slot carries: a tensor, or a container that the runtime builds
/// from tensors.
#[derive(Debug)]
pub enum SlotType {
    Tensor { elem: ElementType, dims: Vec<Dimension> },
    Sequence(Box<SlotType>),
    Mapping { key: ElementType, value: ElementType },
    Optional(Box<SlotType>),
}

/// What a [`SlotType`] stands for.
pub enum SlotTypeView {
    Tensor { elem: ElementType, dims: Seq<DimensionView> },
    Sequence(Box<SlotTypeView>),
    Mapping { key: ElementType, value: ElementType },
    Optional(Box<SlotTypeView>),
}

impl View for SlotType {
    type V = SlotTypeView;

    open spec fn view(&self) -> SlotTypeView
        decreases self,
    {
        match self {
            SlotType::Tensor { elem, dims } => SlotTypeView::Tensor {
                elem: *elem,
                dims: views(dims@),
            },
            SlotType::Sequence(inner) => SlotTypeView::Sequence(Box::new((**inner).view())),
            SlotType::Mapping { key, value } => SlotTypeView::Mapping { key: *key, value: *value },
            SlotType::Optional(inner) => SlotTypeView::Optional(Box::new((**inner).view())),
        }
    }
}

impl SlotTypeView {
    /// A tensor is written as its element type and its shape, a container
    /// as its kind around what it holds.
    pub open spec fn text(self) -> Seq<char>
        decreases self,
    {
        match self {
            SlotTypeView::Tensor { elem, dims } => "tensor<"@ + elem.label() + ">"@ + bracketed(
                dimension_texts(dims),
            ),
            SlotTypeView::Sequence(inner) => "sequence<"@ + inner.text() + ">"@,
            SlotTypeView::Mapping { key, value } => "map<"@ + key.label() + ", "@ + value.label()
                + ">"@,
            SlotTypeView::Optional(inner) => "optional<"@ + inner.text() + ">"@,
        }
    }
}

impl SlotType {
    /// A tensor slot with the given fixed or open dimension sizes, none of
    /// them named.
    pub fn tensor(elem: ElementType, sizes: &Vec<i64>) -> (t: SlotType)
        ensures
            t@ == (SlotTypeView::Tensor {
                elem,
                dims: Seq::new(
                    sizes@.len(),
                    |i: int| DimensionView { size: sizes@[i] as int, symbol: Seq::empty() },
                ),
            }),
    {
        let mut dims: Vec<Dimension> = Vec::new();
        let mut i: usize = 0;
        while i < sizes.len()
            invariant
                i <= sizes.len(),
                dims@.len() == i,
                forall|k: int|
                    0 <= k < i ==> (#[trigger] dims@[k])@ == (DimensionView {
                        size: sizes@[k] as int,
                        symbol: Seq::empty(),
                    }),
            decreases sizes.len() - i,
        {
            dims.push(Dimension::new(sizes[i]));
            i += 1;
        }
        let t = SlotType::Tensor { elem, dims };
        assert(views(dims@) =~= Seq::new(
            sizes@.len(),
            |i: int| DimensionView { size: sizes@[i] as int, symbol: Seq::empty() },
        ));
        t
    }

    /// Writes the slot type.
    pub fn render(&self) -> (s: String)
        ensures
            s@ == self@.text(),
        decreases self,
    {
        match self {
            SlotType::Tensor { elem, dims } => {
                let mut s = String::from_str("tensor<");
                s.append(elem.name());
                s.append(">");
                let shape = render_dimensions(dims);
                s.append(shape.as_str());
                s
            },
            SlotType::Sequence(inner) => {
                let mut s = String::from_str("sequence<");
                let held = inner.render();
                s.append(held.as_str());
                s.append(">");
                s
            },
            SlotType::Mapping { key, value } => {
                let mut s = String::from_str("map<");
                s.append(key.name());
                s.append(", ");
                s.append(value.name());
                s.append(">");
                s
            },
            SlotType::Optional(inner) => {
                let mut s = String::from_str("optional<");
                let held = inner.render();
                s.append(held.as_str());
                s.append(">");
                s
            },
        }
    }
}

/// One named input or output slot of a model.
#[derive(Debug)]
pub struct TensorSignature {
    pub name: String,
    pub kind: SlotType,
}

/// What a [`TensorSignature`] stands for.
pub struct SlotView {
    pub name: Seq<char>,
    pub kind: SlotTypeView,
}

impl View for TensorSignature {
    type V = SlotView;

    open spec fn view(&self) -> SlotView {
        SlotView { name: self.name@, kind: self.kind@ }
    }
}

/// The line that closes the description of one slot.
pub open spec fn block_end() -> Seq<char> {
    "   ---"@
}

impl SlotView {
    /// The line that gives the slot's name, verbatim.
    pub open spec fn name_line(self) -> Seq<char> {
        "   Name: "@ + self.name
    }

    /// The line that gives what the slot carries.
    pub open spec fn type_line(self) -> Seq<char> {
        "   Type: "@ + self.kind.text()
    }

    /// The three lines that describe the slot.
    pub open spec fn block(self) -> Seq<Seq<char>> {
        seq![self.name_line(), self.type_line(), block_end()]
    }
}

impl TensorSignature {
    /// A slot with the given name.
    pub fn new(name: &str, kind: SlotType) -> (sig: TensorSignature)
        ensures
            sig@ == (SlotView { name: name@, kind: kind@ }),
    {
        TensorSignature { name: String::from_str(name), kind }
    }

    /// Writes the three lines that describe the slot.
    pub fn describe(&self) -> (lines: Vec<String>)
        ensures
            views(lines@) == self@.block(),
    {
        let mut name_line = String::from_str("   Name: ");
        name_line.append(self.name.as_str());
        let mut type_line = String::from_str("   Type: ");
        let kind = self.kind.render();
        type_line.append(kind.as_str());
        let mut lines: Vec<String> = Vec::new();
        lines.push(name_line);
        lines.push(type_line);
        lines.push(String::from_str("   ---"));
        assert(views(lines@) =~= self@.block());
        lines
    }
}

} // verus!
