//! Layout mirrors: the size, alignment and field offsets that each foreign
//! type declares, and the checks that a host mirror agrees with them.

use vstd::layout::{align_of, size_of};
use vstd::prelude::*;

verus! {

/// Maps an alignment to the unsigned integer type of that many bytes.
pub trait AlignType {
    type Type;
}

/// A type-level alignment.
pub struct Const<const N: usize>;

impl AlignType for Const<1> {
    type Type = u8;
}

impl AlignType for Const<2> {
    type Type = u16;
}

impl AlignType for Const<4> {
    type Type = u32;
}

impl AlignType for Const<8> {
    type Type = u64;
}

/// Opaque storage of `N` words of `A` bytes: the host-side placeholder for a
/// foreign object whose alignment is `A` and whose size is `A * N`.
pub struct Mirror<const A: usize, const N: usize> where Const<A>: AlignType {
    space: [<Const<A> as AlignType>::Type; N],
}


/// The size and alignment, in bytes, that a foreign type declares.
#[derive(Clone, Copy, Debug, PartialEq, Eq, Structural)]
pub struct Layout {
    pub size: usize,
    pub align: usize,
}

/// One field of a structurally mirrored type: where it starts and how many
/// bytes it takes, with its alignment.
#[derive(Clone, Copy, Debug, PartialEq, Eq, Structural)]
pub struct FieldLayout {
    pub offset: usize,
    pub size: usize,
    pub align: usize,
}

/// An alignment that a mirror can be built from.
pub open spec fn is_word_alignment(align: usize) -> bool {
    align == 1 || align == 2 || align == 4 || align == 8
}

impl Layout {
    /// A layout that an opaque mirror can take: a word alignment, and a size
    /// that is a whole number of words.
    pub open spec fn wf(self) -> bool {
        is_word_alignment(self.align) && self.size % self.align == 0
    }

    /// The number of words that an opaque mirror of this layout holds.
    pub open spec fn spec_unit_count(self) -> nat {
        (self.size / self.align) as nat
    }

    /// Whether this layout can be mirrored.
    pub fn is_valid(&self) -> (r: bool)
        ensures
            r == self.wf(),
    {
        (self.align == 1 || self.align == 2 || self.align == 4 || self.align == 8)
            && self.size % self.align == 0
    }

    /// The number of words of `align` bytes that fill exactly `size` bytes.
    pub fn unit_count(&self) -> (r: usize)
        requires
            self.wf(),
        ensures
            r == self.spec_unit_count(),
            r * self.align == self.size,
    {
        let r = self.size / self.align;
        proof {
            vstd::arithmetic::div_mod::lemma_fundamental_div_mod(
                self.size as int,
                self.align as int,
            );
        }
        r
    }
}

/// Whether the host type `T` has exactly the declared size and alignment.
pub fn mirror_matches<T>(declared: &Layout) -> (r: bool)
    ensures
        r == (size_of::<T>() == declared.size as nat && align_of::<T>() == declared.align as nat),
{
    core::mem::size_of::<T>() == declared.size && core::mem::align_of::<T>() == declared.align
}

/// A field lies within the object and starts on its own alignment.
pub open spec fn field_fits(layout: Layout, f: FieldLayout) -> bool {
    &&& is_word_alignment(f.align)
    &&& f.align <= layout.align
    &&& f.offset % f.align == 0
    &&& f.offset + f.size <= layout.size
}

/// The fields fit, in order of offset, none overlapping the next.
pub open spec fn fields_consistent(layout: Layout, fields: Seq<FieldLayout>) -> bool {
    &&& forall|i: int| 0 <= i < fields.len() ==> #[trigger] field_fits(layout, fields[i])
    &&& forall|i: int|
        0 <= i < fields.len() - 1 ==> fields[i].offset + fields[i].size <= #[trigger] fields[i
            + 1].offset
}

/// Checks a structurally mirrored type: every field fits inside the declared
/// layout on its own alignment, and the fields follow each other without
/// overlapping.
pub fn check_fields(layout: &Layout, fields: &Vec<FieldLayout>) -> (r: bool)
    ensures
        r == fields_consistent(*layout, fields@),
{
    let mut i: usize = 0;
    while i < fields.len()
        invariant
            i <= fields.len(),
            forall|j: int| 0 <= j < i ==> #[trigger] field_fits(*layout, fields@[j]),
            forall|j: int|
                0 <= j < i as int - 1 ==> fields@[j].offset + fields@[j].size <= #[trigger] fields@[j
                    + 1].offset,
        decreases fields.len() - i,
    {
        let f = fields[i];
        let fits = (f.align == 1 || f.align == 2 || f.align == 4 || f.align == 8) && f.align
            <= layout.align && f.offset % f.align == 0 && f.size <= layout.size && f.offset
            <= layout.size - f.size;
        if !fits {
            assert(!field_fits(*layout, fields@[i as int]));
            return false;
        }
        if i > 0 {
            let prev = fields[i - 1];
            if prev.size > f.offset || prev.offset > f.offset - prev.size {
                let ghost k: int = i - 1;
                assert(!(fields@[k].offset + fields@[k].size <= fields@[k + 1].offset));
                return false;
            }
        }
        i = i + 1;
    }
    true
}


/// The foreign types that the host mirrors.
#[derive(Clone, Copy, Debug, PartialEq, Eq, Structural)]
pub enum MirroredType {
    JuceString,
    CharPointerUtf8,
    Array,
    StringArray,
    BigInteger,
    File,
    FileSearchPath,
    Time,
    MidiBuffer,
    MidiMessage,
    MidiFile,
    IirCoefficients,
    SingleThreadedIirFilter,
    AudioDeviceSetup,
    MidiDeviceInfo,
    PluginDescription,
    AudioPluginFormatManager,
    LeakedObjectDetector,
}

/// The layout that each foreign type declares.
pub open spec fn spec_declared_layout(t: MirroredType) -> Layout {
    match t {
        MirroredType::JuceString => Layout { size: 8, align: 8 },
        MirroredType::CharPointerUtf8 => Layout { size: 8, align: 8 },
        MirroredType::Array => Layout { size: 16, align: 8 },
        MirroredType::StringArray => Layout { size: 16, align: 8 },
        MirroredType::BigInteger => Layout { size: 40, align: 8 },
        MirroredType::File => Layout { size: 8, align: 8 },
        MirroredType::FileSearchPath => Layout { size: 16, align: 8 },
        MirroredType::Time => Layout { size: 8, align: 8 },
        MirroredType::MidiBuffer => Layout { size: 16, align: 8 },
        MirroredType::MidiMessage => Layout { size: 24, align: 8 },
        MirroredType::MidiFile => Layout { size: 24, align: 8 },
        MirroredType::IirCoefficients => Layout { size: 20, align: 4 },
        MirroredType::SingleThreadedIirFilter => Layout { size: 36, align: 4 },
        MirroredType::AudioDeviceSetup => Layout { size: 128, align: 8 },
        MirroredType::MidiDeviceInfo => Layout { size: 16, align: 8 },
        MirroredType::PluginDescription => Layout { size: 96, align: 8 },
        MirroredType::AudioPluginFormatManager => Layout { size: 16, align: 8 },
        MirroredType::LeakedObjectDetector => Layout { size: 1, align: 1 },
    }
}

/// A field of the given size and alignment at the given offset.
pub open spec fn field(offset: usize, size: usize, align: usize) -> FieldLayout {
    FieldLayout { offset, size, align }
}

/// The fields that the structurally mirrored types declare, in order of
/// offset; an opaque type declares none.
pub open spec fn spec_declared_fields(t: MirroredType) -> Seq<FieldLayout> {
    match t {
        MirroredType::AudioDeviceSetup => seq![
            field(0, 8, 8),
            field(8, 8, 8),
            field(16, 8, 8),
            field(24, 4, 4),
            field(32, 40, 8),
            field(72, 1, 1),
            field(80, 40, 8),
            field(120, 1, 1),
        ],
        MirroredType::MidiDeviceInfo => seq![field(0, 8, 8), field(8, 8, 8)],
        MirroredType::PluginDescription => seq![
            field(0, 8, 8),
            field(8, 8, 8),
            field(16, 8, 8),
            field(24, 8, 8),
            field(32, 8, 8),
            field(40, 8, 8),
            field(48, 8, 8),
            field(56, 8, 8),
            field(64, 8, 8),
            field(72, 4, 4),
            field(76, 4, 4),
            field(80, 1, 1),
            field(84, 4, 4),
            field(88, 4, 4),
            field(92, 1, 1),
            field(93, 1, 1),
        ],
        _ => Seq::empty(),
    }
}

fn mk_field(offset: usize, size: usize, align: usize) -> (r: FieldLayout)
    ensures
        r == field(offset, size, align),
{
    FieldLayout { offset, size, align }
}

impl MirroredType {
    /// The declared layout of this type.
    pub fn declared_layout(self) -> (r: Layout)
        ensures
            r == spec_declared_layout(self),
    {
        match self {
            MirroredType::JuceString => Layout { size: 8, align: 8 },
            MirroredType::CharPointerUtf8 => Layout { size: 8, align: 8 },
            MirroredType::Array => Layout { size: 16, align: 8 },
            MirroredType::StringArray => Layout { size: 16, align: 8 },
            MirroredType::BigInteger => Layout { size: 40, align: 8 },
            MirroredType::File => Layout { size: 8, align: 8 },
            MirroredType::FileSearchPath => Layout { size: 16, align: 8 },
            MirroredType::Time => Layout { size: 8, align: 8 },
            MirroredType::MidiBuffer => Layout { size: 16, align: 8 },
            MirroredType::MidiMessage => Layout { size: 24, align: 8 },
            MirroredType::MidiFile => Layout { size: 24, align: 8 },
            MirroredType::IirCoefficients => Layout { size: 20, align: 4 },
            MirroredType::SingleThreadedIirFilter => Layout { size: 36, align: 4 },
            MirroredType::AudioDeviceSetup => Layout { size: 128, align: 8 },
            MirroredType::MidiDeviceInfo => Layout { size: 16, align: 8 },
            MirroredType::PluginDescription => Layout { size: 96, align: 8 },
            MirroredType::AudioPluginFormatManager => Layout { size: 16, align: 8 },
            MirroredType::LeakedObjectDetector => Layout { size: 1, align: 1 },
        }
    }

    /// The declared fields of this type, in order of offset.
    pub fn declared_fields(self) -> (r: Vec<FieldLayout>)
        ensures
            r@ == spec_declared_fields(self),
    {
        let r = match self {
            MirroredType::AudioDeviceSetup => vec![
                mk_field(0, 8, 8),
                mk_field(8, 8, 8),
                mk_field(16, 8, 8),
                mk_field(24, 4, 4),
                mk_field(32, 40, 8),
                mk_field(72, 1, 1),
                mk_field(80, 40, 8),
                mk_field(120, 1, 1),
            ],
            MirroredType::MidiDeviceInfo => vec![mk_field(0, 8, 8), mk_field(8, 8, 8)],
            MirroredType::PluginDescription => vec![
                mk_field(0, 8, 8),
                mk_field(8, 8, 8),
                mk_field(16, 8, 8),
                mk_field(24, 8, 8),
                mk_field(32, 8, 8),
                mk_field(40, 8, 8),
                mk_field(48, 8, 8),
                mk_field(56, 8, 8),
                mk_field(64, 8, 8),
                mk_field(72, 4, 4),
                mk_field(76, 4, 4),
                mk_field(80, 1, 1),
                mk_field(84, 4, 4),
                mk_field(88, 4, 4),
                mk_field(92, 1, 1),
                mk_field(93, 1, 1),
            ],
            _ => Vec::new(),
        };
        assert(r@ =~= spec_declared_fields(self));
        r
    }
}

/// Every declared layout can be mirrored: its alignment is a word alignment
/// and its size a whole number of such words, so a mirror of
/// `size / align` words has exactly the declared size.
pub proof fn lemma_declared_layouts_mirrorable(t: MirroredType)
    ensures
        spec_declared_layout(t).wf(),
        spec_declared_layout(t).spec_unit_count() * spec_declared_layout(t).align
            == spec_declared_layout(t).size,
{
    match t {
        MirroredType::JuceString => {},
        MirroredType::CharPointerUtf8 => {},
        MirroredType::Array => {},
        MirroredType::StringArray => {},
        MirroredType::BigInteger => {},
        MirroredType::File => {},
        MirroredType::FileSearchPath => {},
        MirroredType::Time => {},
        MirroredType::MidiBuffer => {},
        MirroredType::MidiMessage => {},
        MirroredType::MidiFile => {},
        MirroredType::IirCoefficients => {},
        MirroredType::SingleThreadedIirFilter => {},
        MirroredType::AudioDeviceSetup => {},
        MirroredType::MidiDeviceInfo => {},
        MirroredType::PluginDescription => {},
        MirroredType::AudioPluginFormatManager => {},
        MirroredType::LeakedObjectDetector => {},
    }
    let l = spec_declared_layout(t);
    vstd::arithmetic::div_mod::lemma_fundamental_div_mod(l.size as int, l.align as int);
    assert(l.spec_unit_count() == l.size as int / l.align as int);
    assert(l.spec_unit_count() * l.align == l.align * (l.size as int / l.align as int));
}

/// The fields that each structurally mirrored type declares fit inside its
/// declared layout, in order and without overlap.
pub proof fn lemma_declared_fields_consistent(t: MirroredType)
    ensures
        fields_consistent(spec_declared_layout(t), spec_declared_fields(t)),
{
    match t {
        MirroredType::AudioDeviceSetup => {
            let s = spec_declared_fields(t);
            let l = spec_declared_layout(t);
            assert(s.len() == 8);
            assert forall|i: int| 0 <= i < s.len() implies #[trigger] field_fits(l, s[i]) by {
                assert(i == 0 || i == 1 || i == 2 || i == 3 || i == 4 || i == 5 || i == 6 || i == 7);
            }
            assert forall|i: int| 0 <= i < s.len() - 1 implies s[i].offset + s[i].size <= #[trigger] s[i + 1].offset by {
                assert(i == 0 || i == 1 || i == 2 || i == 3 || i == 4 || i == 5 || i == 6);
            }
        },
        MirroredType::MidiDeviceInfo => {
            let s = spec_declared_fields(t);
            let l = spec_declared_layout(t);
            assert(s.len() == 2);
            assert forall|i: int| 0 <= i < s.len() implies #[trigger] field_fits(l, s[i]) by {
                assert(i == 0 || i == 1);
            }
            assert forall|i: int| 0 <= i < s.len() - 1 implies s[i].offset + s[i].size <= #[trigger] s[i + 1].offset by {
                assert(i == 0);
            }
        },
        MirroredType::PluginDescription => {
            let s = spec_declared_fields(t);
            let l = spec_declared_layout(t);
            assert(s.len() == 16);
            assert forall|i: int| 0 <= i < s.len() implies #[trigger] field_fits(l, s[i]) by {
                assert(i == 0 || i == 1 || i == 2 || i == 3 || i == 4 || i == 5 || i == 6 || i == 7 || i == 8 || i == 9 || i == 10 || i == 11 || i == 12 || i == 13 || i == 14 || i == 15);
            }
            assert forall|i: int| 0 <= i < s.len() - 1 implies s[i].offset + s[i].size <= #[trigger] s[i + 1].offset by {
                assert(i == 0 || i == 1 || i == 2 || i == 3 || i == 4 || i == 5 || i == 6 || i == 7 || i == 8 || i == 9 || i == 10 || i == 11 || i == 12 || i == 13 || i == 14);
            }
        },
        _ => {},
    }
}

} // verus!
