use vstd::prelude::*;

verus! {

/// Whether memory type `i` is allowed by `type_filter` and has every flag in `properties`.
pub open spec fn memory_type_suitable(
    type_flags: Seq<u32>,
    type_filter: u32,
    properties: u32,
    i: int,
) -> bool {
    &&& 0 <= i < type_flags.len()
    &&& (type_filter >> (i as u32)) & 1u32 == 1u32
    &&& type_flags[i] & properties == properties
}

/// The first memory type, among those whose property flags are listed in
/// `type_flags`, that `type_filter` allows (bit `i` for type `i`) and that has
/// all the `properties`; `None` where there is none, on which the renderer
/// gives up.
pub fn find_memory_type(type_flags: &[u32], type_filter: u32, properties: u32) -> (r: Option<u32>)
    requires
        type_flags@.len() <= 32,
    ensures
        match r {
            Some(i) => {
                &&& memory_type_suitable(type_flags@, type_filter, properties, i as int)
                &&& forall|j: int|
                    0 <= j < i ==> !memory_type_suitable(type_flags@, type_filter, properties, j)
            },
            None => forall|j: int|
                0 <= j < type_flags@.len() ==> !memory_type_suitable(
                    type_flags@,
                    type_filter,
                    properties,
                    j,
                ),
        },
{
    let count = type_flags.len();
    let mut i: usize = 0;
    while i < count
        invariant
            count == type_flags@.len() <= 32,
            i <= count,
            forall|j: int|
                0 <= j < i ==> !memory_type_suitable(type_flags@, type_filter, properties, j),
        decreases count - i,
    {
        let bit: u32 = i as u32;
        let allowed = type_filter & (1u32 << bit) > 0;
        proof {
            assert(((type_filter & (1u32 << bit)) > 0) == ((type_filter >> bit) & 1u32 == 1u32))
                by (bit_vector)
                requires
                    bit < 32,
            ;
        }
        if allowed && type_flags[i] & properties == properties {
            return Some(bit);
        }
        i = i + 1;
    }
    None
}

} // verus!
