use vstd::prelude::*;

verus! {

/// What a glTF buffer view says about where its bytes lie: the index of the
/// view in the document and its byte offset in the buffer.
#[derive(Copy, Clone, Debug, PartialEq, Eq)]
pub struct BufferView {
    pub index: usize,
    pub offset: usize,
}

/// The character of a decimal digit.
pub open spec fn digit_char(d: nat) -> char {
    ((48 + d) as u32) as char
}

/// The decimal representation of `n`, without leading zeros.
pub open spec fn decimal(n: nat) -> Seq<char>
    decreases n,
{
    if n < 10 {
        seq![digit_char(n)]
    } else {
        decimal(n / 10).push(digit_char(n % 10))
    }
}

/// The number that a string of decimal digits reads as, most significant first.
pub open spec fn decimal_value(s: Seq<char>) -> int
    decreases s.len(),
{
    if s.len() == 0 {
        0
    } else {
        decimal_value(s.drop_last()) * 10 + (s.last() as int - '0' as int)
    }
}

/// `decimal(n)` is the usual way to write `n`: only the digits `0` to `9`,
/// no leading zero unless `n` is zero, and it reads back as `n`.
pub proof fn lemma_decimal_reads_back(n: nat)
    ensures
        decimal(n).len() >= 1,
        forall|i: int| 0 <= i < decimal(n).len() ==> '0' <= #[trigger] decimal(n)[i] <= '9',
        decimal(n)[0] != '0' || n == 0,
        decimal_value(decimal(n)) == n,
    decreases n,
{
    if n >= 10 {
        lemma_decimal_reads_back(n / 10);
        let d = decimal(n);
        let front = decimal(n / 10);
        assert(d.drop_last() =~= front);
        assert forall|i: int| 0 <= i < d.len() implies '0' <= #[trigger] d[i] <= '9' by {
            if i < front.len() {
                assert(d[i] == front[i]);
            }
        }
        assert(d[0] == front[0]);
        assert(d.last() == digit_char(n % 10));
        assert(digit_char(n % 10) as int == 48 + n % 10);
        assert(decimal_value(d) == decimal_value(front) * 10 + n % 10);
        assert(decimal_value(front) == n / 10);
        assert(n == (n / 10) * 10 + n % 10);
        assert(decimal_value(d) == n);
    } else {
        let d = decimal(n);
        assert(d.drop_last() =~= Seq::<char>::empty());
        assert(decimal_value(d.drop_last()) == 0);
        assert(d.last() == digit_char(n));
        assert(digit_char(n) as int == 48 + n);
        assert(decimal_value(d) == n);
    }
}

/// The string that names an image stored in a buffer view: the view's index
/// followed by its offset, both in decimal.
pub open spec fn view_uri(view: BufferView) -> Seq<char> {
    decimal(view.index as nat) + decimal(view.offset as nat)
}

fn digit_str(d: usize) -> (s: &'static str)
    requires
        d < 10,
    ensures
        s@ == seq![digit_char(d as nat)],
{
    match d {
        0 => {
            proof {
                reveal_strlit("0");
            }
            "0"
        },
        1 => {
            proof {
                reveal_strlit("1");
            }
            "1"
        },
        2 => {
            proof {
                reveal_strlit("2");
            }
            "2"
        },
        3 => {
            proof {
                reveal_strlit("3");
            }
            "3"
        },
        4 => {
            proof {
                reveal_strlit("4");
            }
            "4"
        },
        5 => {
            proof {
                reveal_strlit("5");
            }
            "5"
        },
        6 => {
            proof {
                reveal_strlit("6");
            }
            "6"
        },
        7 => {
            proof {
                reveal_strlit("7");
            }
            "7"
        },
        8 => {
            proof {
                reveal_strlit("8");
            }
            "8"
        },
        _ => {
            proof {
                reveal_strlit("9");
            }
            "9"
        },
    }
}

/// Appends the decimal representation of `n` to `s`.
fn push_decimal(s: &mut String, n: usize)
    ensures
        final(s)@ == old(s)@ + decimal(n as nat),
    decreases n,
{
    if n >= 10 {
        push_decimal(s, n / 10);
    }
    s.append(digit_str(n % 10));
    proof {
        assert(final(s)@ =~= old(s)@ + decimal(n as nat));
    }
}

/// The key under which the image stored in `view` is kept.
pub fn get_uri(view: &BufferView) -> (r: String)
    ensures
        r@ == view_uri(*view),
{
    let mut s = String::new();
    push_decimal(&mut s, view.index);
    push_decimal(&mut s, view.offset);
    proof {
        assert(s@ =~= view_uri(*view));
    }
    s
}

/// `n` zero bytes.
pub open spec fn zeros(n: nat) -> Seq<u8> {
    Seq::new(n, |i: int| 0u8)
}

/// Pads `buffer` with zero bytes up to the next multiple of `align`. An
/// already aligned buffer still gets a full `align` bytes of padding; an
/// `align` of zero leaves the buffer as it is.
pub fn extend_align(buffer: &mut Vec<u8>, align: usize)
    requires
        old(buffer)@.len() + align <= usize::MAX,
    ensures
        align == 0 ==> final(buffer)@ == old(buffer)@,
        align > 0 ==> final(buffer)@ == old(buffer)@ + zeros(
            (align - old(buffer)@.len() % (align as nat)) as nat,
        ),
{
    if align > 0 {
        let remainder = buffer.len() % align;
        let count = align - remainder;
        let ghost start = buffer@;
        let mut i: usize = 0;
        while i < count
            invariant
                i <= count,
                count == align - start.len() % (align as nat),
                start.len() + align <= usize::MAX,
                buffer@ == start + zeros(i as nat),
            decreases count - i,
        {
            buffer.push(0);
            i = i + 1;
            assert(buffer@ =~= start + zeros(i as nat));
        }
    }
}

/// Appends one primitive's bytes to a shared buffer at the next offset that
/// is a multiple of `align`, padding with zero bytes before them (a full
/// `align` bytes where the buffer is already aligned). Returns the offset at
/// which the bytes start, which `align` divides.
pub fn append_aligned(buffer: &mut Vec<u8>, align: usize, data: &[u8]) -> (offset: usize)
    requires
        align > 0,
        old(buffer)@.len() + align + data@.len() <= usize::MAX,
    ensures
        offset == old(buffer)@.len() + (align - old(buffer)@.len() % (align as nat)),
        offset % align == 0,
        final(buffer)@ == old(buffer)@ + zeros((align - old(buffer)@.len() % (align as nat)) as nat)
            + data@,
{
    proof {
        lemma_extend_align_aligns(buffer@, align as nat);
    }
    extend_align(buffer, align);
    let offset = buffer.len();
    let ghost padded = buffer@;
    let n = data.len();
    let mut i: usize = 0;
    while i < n
        invariant
            n == data@.len(),
            i <= n,
            padded.len() + n <= usize::MAX,
            buffer@ == padded + data@.subrange(0, i as int),
        decreases n - i,
    {
        buffer.push(data[i]);
        i = i + 1;
        assert(buffer@ =~= padded + data@.subrange(0, i as int));
    }
    assert(data@.subrange(0, n as int) =~= data@);
    offset
}

/// After `extend_align` with a nonzero alignment the buffer's length is a
/// multiple of the alignment, and the buffer grew by between one byte and
/// `align` bytes.
#[verifier::spinoff_prover]
pub proof fn lemma_extend_align_aligns(buffer: Seq<u8>, align: nat)
    requires
        align > 0,
    ensures
        ({
            let padded = buffer + zeros((align - buffer.len() % align) as nat);
            &&& padded.len() % align == 0
            &&& buffer.len() < padded.len() <= buffer.len() + align
        }),
{
    let len = buffer.len();
    let pad = (align - len % align) as nat;
    vstd::arithmetic::div_mod::lemma_fundamental_div_mod(len as int, align as int);
    vstd::arithmetic::div_mod::lemma_mod_bound(len as int, align as int);
    let q = len / align;
    let r = len % align;
    assert(len + pad == align * (q + 1)) by (nonlinear_arith)
        requires
            len == align * q + r,
            pad == align - r,
    ;
    vstd::arithmetic::div_mod::lemma_mod_multiples_basic((len / align + 1) as int, align as int);
    assert((buffer + zeros(pad)).len() == len + pad);
}

/// The zero bytes that `extend_align` adds to a buffer of `len` bytes.
pub open spec fn padding(len: nat, align: nat) -> nat {
    (align - len % align) as nat
}

/// The bytes of several parts, each given with its alignment, laid one
/// after the other in a shared buffer, each padded to its alignment as
/// `append_aligned` does.
pub open spec fn packed(parts: Seq<(Seq<u8>, nat)>) -> Seq<u8>
    decreases parts.len(),
{
    if parts.len() == 0 {
        Seq::empty()
    } else {
        let before = packed(parts.drop_last());
        before + zeros(padding(before.len(), parts.last().1)) + parts.last().0
    }
}

/// Where part `i` starts in `packed(parts)`.
pub open spec fn packed_offset(parts: Seq<(Seq<u8>, nat)>, i: int) -> nat {
    let before = packed(parts.take(i));
    before.len() + padding(before.len(), parts[i].1)
}

/// What the packing of `parts` can take at most: every part's bytes and a
/// full alignment of padding before each.
pub open spec fn packed_bound(parts: Seq<(Seq<u8>, nat)>) -> nat
    decreases parts.len(),
{
    if parts.len() == 0 {
        0
    } else {
        packed_bound(parts.drop_last()) + parts.last().0.len() + parts.last().1
    }
}

/// One primitive of a mesh: its vertex and index bytes, and the alignment
/// that the device asks of the buffer holding each.
#[derive(Clone, Debug)]
pub struct PrimitiveBytes {
    pub vertices: Vec<u8>,
    pub vertex_align: usize,
    pub indices: Vec<u8>,
    pub index_align: usize,
}

/// The vertex parts of the primitives, with their alignments.
pub open spec fn vertex_parts(primitives: Seq<PrimitiveBytes>) -> Seq<(Seq<u8>, nat)> {
    Seq::new(primitives.len(), |i: int| (primitives[i].vertices@, primitives[i].vertex_align as nat))
}

/// The index parts of the primitives, with their alignments.
pub open spec fn index_parts(primitives: Seq<PrimitiveBytes>) -> Seq<(Seq<u8>, nat)> {
    Seq::new(primitives.len(), |i: int| (primitives[i].indices@, primitives[i].index_align as nat))
}

/// The vertex region of the shared buffer: every primitive's vertices,
/// each aligned, then padding to the first primitive's index alignment.
pub open spec fn vertex_region(primitives: Seq<PrimitiveBytes>) -> Seq<u8> {
    let v = packed(vertex_parts(primitives));
    v + zeros(padding(v.len(), primitives[0].index_align as nat))
}

/// A mesh's primitives in one buffer: the vertex region, then the indices.
#[derive(Clone, Debug)]
pub struct MeshLayout {
    /// The bytes of the shared buffer.
    pub bytes: Vec<u8>,
    /// The length of the vertex region, where the indices start.
    pub vertex_byte_length: usize,
    /// For each primitive, where in `bytes` its vertices and its indices start.
    pub offsets: Vec<(usize, usize)>,
}

proof fn lemma_packed_bounded(parts: Seq<(Seq<u8>, nat)>)
    requires
        forall|i: int| 0 <= i < parts.len() ==> parts[i].1 > 0,
    ensures
        packed(parts).len() <= packed_bound(parts),
    decreases parts.len(),
{
    if parts.len() > 0 {
        let before = packed(parts.drop_last());
        lemma_packed_bounded(parts.drop_last());
        lemma_extend_align_aligns(before, parts.last().1);
    }
}

proof fn lemma_packed_bound_prefix(parts: Seq<(Seq<u8>, nat)>, i: int)
    requires
        0 <= i <= parts.len(),
    ensures
        packed_bound(parts.take(i)) <= packed_bound(parts),
    decreases parts.len() - i,
{
    if i < parts.len() {
        lemma_packed_bound_prefix(parts, i + 1);
        assert(parts.take(i + 1).drop_last() =~= parts.take(i));
    } else {
        assert(parts.take(i) =~= parts);
    }
}

/// Packing lays each part at an offset that its alignment divides, inside
/// the packed bytes, where the part's bytes are found unchanged.
pub proof fn lemma_packed_places_parts(parts: Seq<(Seq<u8>, nat)>, i: int)
    requires
        0 <= i < parts.len(),
        forall|k: int| 0 <= k < parts.len() ==> (#[trigger] parts[k]).1 > 0,
    ensures
        packed_offset(parts, i) % parts[i].1 == 0,
        packed_offset(parts, i) + parts[i].0.len() <= packed(parts).len(),
        packed(parts).subrange(
            packed_offset(parts, i) as int,
            (packed_offset(parts, i) + parts[i].0.len()) as int,
        ) == parts[i].0,
    decreases parts.len(),
{
    let front = parts.drop_last();
    let before = packed(front);
    let last = parts.last();
    let whole = packed(parts);
    assert(whole == before + zeros(padding(before.len(), last.1)) + last.0);
    if i == parts.len() - 1 {
        assert(parts.take(i) =~= front);
        lemma_extend_align_aligns(before, last.1);
        let off = packed_offset(parts, i);
        assert(off == before.len() + padding(before.len(), last.1));
        assert(whole.subrange(off as int, (off + last.0.len()) as int) =~= last.0);
    } else {
        assert forall|k: int| 0 <= k < front.len() implies (#[trigger] front[k]).1 > 0 by {
            assert(front[k] == parts[k]);
        }
        lemma_packed_places_parts(front, i);
        assert(front.take(i) =~= parts.take(i));
        assert(front[i] == parts[i]);
        let off = packed_offset(parts, i);
        assert(off == packed_offset(front, i));
        assert(whole.subrange(off as int, (off + parts[i].0.len()) as int) =~= before.subrange(
            off as int,
            (off + parts[i].0.len()) as int,
        ));
    }
}

/// In the mesh buffer, each primitive's vertices start at its vertex offset,
/// which its vertex alignment divides; its indices start after the vertex
/// region at its index offset, which its index alignment divides (the vertex
/// region's length being a multiple of the first primitive's index
/// alignment); and both are found there unchanged.
pub proof fn lemma_mesh_layout_places_primitives(primitives: Seq<PrimitiveBytes>, i: int)
    requires
        0 <= i < primitives.len(),
        forall|k: int|
            0 <= k < primitives.len() ==> (#[trigger] primitives[k]).vertex_align > 0
                && primitives[k].index_align > 0,
    ensures
        ({
            let bytes = vertex_region(primitives) + packed(index_parts(primitives));
            let v = packed_offset(vertex_parts(primitives), i);
            let x = packed_offset(index_parts(primitives), i);
            let base = vertex_region(primitives).len();
            &&& v % (primitives[i].vertex_align as nat) == 0
            &&& x % (primitives[i].index_align as nat) == 0
            &&& base % (primitives[0].index_align as nat) == 0
            &&& v + primitives[i].vertices@.len() <= base
            &&& bytes.subrange(v as int, (v + primitives[i].vertices@.len()) as int) == primitives[i].vertices@
            &&& bytes.subrange((base + x) as int, (base + x + primitives[i].indices@.len()) as int)
                == primitives[i].indices@
        }),
{
    let vparts = vertex_parts(primitives);
    let iparts = index_parts(primitives);
    assert forall|k: int| 0 <= k < vparts.len() implies (#[trigger] vparts[k]).1 > 0 by {}
    assert forall|k: int| 0 <= k < iparts.len() implies (#[trigger] iparts[k]).1 > 0 by {}
    lemma_packed_places_parts(vparts, i);
    lemma_packed_places_parts(iparts, i);
    let vp = packed(vparts);
    lemma_extend_align_aligns(vp, primitives[0].index_align as nat);
    let region = vertex_region(primitives);
    let ip = packed(iparts);
    let bytes = region + ip;
    let v = packed_offset(vparts, i);
    let x = packed_offset(iparts, i);
    let base = region.len();
    assert(bytes.subrange(v as int, (v + primitives[i].vertices@.len()) as int) =~= vp.subrange(
        v as int,
        (v + primitives[i].vertices@.len()) as int,
    ));
    assert(bytes.subrange((base + x) as int, (base + x + primitives[i].indices@.len()) as int)
        =~= ip.subrange(x as int, (x + primitives[i].indices@.len()) as int));
}

/// Lays out a mesh's primitives in one buffer as the renderer binds them:
/// all vertices first, each primitive's aligned to its own alignment, the
/// vertex region then padded to the first primitive's index alignment, and
/// the indices after it, each primitive's aligned likewise. Returns the
/// buffer, the length of the vertex region and where each primitive's
/// vertices and indices start in the buffer.
pub fn layout_mesh(primitives: &[PrimitiveBytes]) -> (r: MeshLayout)
    requires
        primitives@.len() > 0,
        forall|i: int|
            0 <= i < primitives@.len() ==> (#[trigger] primitives@[i]).vertex_align > 0
                && primitives@[i].index_align > 0,
        packed_bound(vertex_parts(primitives@)) + primitives@[0].index_align + packed_bound(
            index_parts(primitives@),
        ) <= usize::MAX,
    ensures
        r.bytes@ == vertex_region(primitives@) + packed(index_parts(primitives@)),
        r.vertex_byte_length == vertex_region(primitives@).len(),
        r.offsets@.len() == primitives@.len(),
        forall|i: int|
            0 <= i < primitives@.len() ==> r.offsets@[i] == (
                packed_offset(vertex_parts(primitives@), i) as usize,
                (vertex_region(primitives@).len() + packed_offset(index_parts(primitives@), i)) as usize,
            ),
{
    let ghost vparts = vertex_parts(primitives@);
    let ghost iparts = index_parts(primitives@);
    proof {
        lemma_packed_bound_prefix(vparts, 0);
    }
    let mut vertex_bytes: Vec<u8> = Vec::new();
    let mut index_bytes: Vec<u8> = Vec::new();
    let mut raw_offsets: Vec<(usize, usize)> = Vec::new();
    let n = primitives.len();
    let mut i: usize = 0;
    assert(vparts.take(0) =~= Seq::<(Seq<u8>, nat)>::empty());
    assert(iparts.take(0) =~= Seq::<(Seq<u8>, nat)>::empty());
    while i < n
        invariant
            n == primitives@.len(),
            i <= n,
            vparts == vertex_parts(primitives@),
            iparts == index_parts(primitives@),
            forall|k: int|
                0 <= k < primitives@.len() ==> (#[trigger] primitives@[k]).vertex_align > 0
                    && primitives@[k].index_align > 0,
            packed_bound(vparts) + primitives@[0].index_align + packed_bound(iparts) <= usize::MAX,
            vertex_bytes@ == packed(vparts.take(i as int)),
            index_bytes@ == packed(iparts.take(i as int)),
            raw_offsets@.len() == i,
            forall|k: int|
                0 <= k < i ==> raw_offsets@[k] == (
                    packed_offset(vparts, k) as usize,
                    packed_offset(iparts, k) as usize,
                ),
            forall|k: int| 0 <= k < i ==> packed_offset(vparts, k) <= packed(vparts.take(i as int)).len(),
            forall|k: int| 0 <= k < i ==> packed_offset(iparts, k) <= packed(iparts.take(i as int)).len(),
        decreases n - i,
    {
        let p = &primitives[i];
        proof {
            assert(vparts.take(i + 1).drop_last() =~= vparts.take(i as int));
            assert(iparts.take(i + 1).drop_last() =~= iparts.take(i as int));
            assert(vparts.take(i + 1).last() == vparts[i as int]);
            assert(iparts.take(i + 1).last() == iparts[i as int]);
            lemma_packed_bounded(vparts.take(i as int));
            lemma_packed_bounded(iparts.take(i as int));
            lemma_packed_bound_prefix(vparts, i + 1);
            lemma_packed_bound_prefix(iparts, i + 1);
            lemma_extend_align_aligns(vertex_bytes@, p.vertex_align as nat);
            lemma_extend_align_aligns(index_bytes@, p.index_align as nat);
        }
        let vertex_offset = append_aligned(&mut vertex_bytes, p.vertex_align, p.vertices.as_slice());
        let index_offset = append_aligned(&mut index_bytes, p.index_align, p.indices.as_slice());
        raw_offsets.push((vertex_offset, index_offset));
        proof {
            assert(vertex_bytes@ =~= packed(vparts.take(i + 1)));
            assert(index_bytes@ =~= packed(iparts.take(i + 1)));
        }
        i = i + 1;
    }
    proof {
        assert(vparts.take(n as int) =~= vparts);
        assert(iparts.take(n as int) =~= iparts);
        lemma_packed_bounded(vparts);
        lemma_packed_bounded(iparts);
        lemma_extend_align_aligns(vertex_bytes@, primitives@[0].index_align as nat);
    }
    extend_align(&mut vertex_bytes, primitives[0].index_align);
    let vertex_byte_length = vertex_bytes.len();
    let mut offsets: Vec<(usize, usize)> = Vec::new();
    let mut j: usize = 0;
    while j < n
        invariant
            n == primitives@.len() == raw_offsets@.len(),
            j <= n,
            vertex_byte_length == vertex_region(primitives@).len(),
            vertex_byte_length + packed(iparts).len() <= usize::MAX,
            iparts == index_parts(primitives@),
            vparts == vertex_parts(primitives@),
            forall|k: int|
                0 <= k < n ==> raw_offsets@[k] == (
                    packed_offset(vparts, k) as usize,
                    packed_offset(iparts, k) as usize,
                ),
            forall|k: int| 0 <= k < n ==> packed_offset(iparts, k) <= packed(iparts).len(),
            offsets@.len() == j,
            forall|k: int|
                0 <= k < j ==> offsets@[k] == (
                    packed_offset(vparts, k) as usize,
                    (vertex_region(primitives@).len() + packed_offset(iparts, k)) as usize,
                ),
        decreases n - j,
    {
        let (vertex_offset, index_offset) = raw_offsets[j];
        offsets.push((vertex_offset, vertex_byte_length + index_offset));
        j = j + 1;
    }
    let mut bytes = vertex_bytes;
    let mut k: usize = 0;
    let ghost vertex_part = bytes@;
    while k < index_bytes.len()
        invariant
            vertex_part == vertex_region(primitives@),
            index_bytes@ == packed(iparts),
            iparts == index_parts(primitives@),
            vertex_part.len() + index_bytes@.len() <= usize::MAX,
            k <= index_bytes@.len(),
            bytes@ == vertex_part + index_bytes@.subrange(0, k as int),
        decreases index_bytes@.len() - k,
    {
        bytes.push(index_bytes[k]);
        k = k + 1;
        assert(bytes@ =~= vertex_part + index_bytes@.subrange(0, k as int));
    }
    assert(index_bytes@.subrange(0, index_bytes@.len() as int) =~= index_bytes@);
    MeshLayout { bytes, vertex_byte_length, offsets }
}

} // verus!
