use vstd::prelude::*;

verus! {

/// One declared field of a `#[repr(C)]` overlay onto foreign memory.
#[derive(Clone, Copy, Debug, PartialEq, Eq, Structural)]
pub enum FieldKind {
    /// A raw pointer or a function pointer: 8 bytes, 8-aligned.
    Pointer,
    /// A single byte.
    Byte,
    /// A 32-bit float: 4 bytes, 4-aligned.
    Float32,
    /// A byte array that stands for the fields nobody reads.
    Padding(u32),
}

pub open spec fn size_of(k: FieldKind) -> int {
    match k {
        FieldKind::Pointer => 8,
        FieldKind::Byte => 1,
        FieldKind::Float32 => 4,
        FieldKind::Padding(n) => n as int,
    }
}

pub open spec fn align_of(k: FieldKind) -> int {
    match k {
        FieldKind::Pointer => 8,
        FieldKind::Byte => 1,
        FieldKind::Float32 => 4,
        FieldKind::Padding(_) => 1,
    }
}

/// The smallest multiple of `a` that is at least `x`.
pub open spec fn align_up(x: int, a: int) -> int {
    if x % a == 0 {
        x
    } else {
        x + (a - x % a)
    }
}

/// Where the first `n` fields end when laid out in order with C rules.
pub open spec fn end_after(fields: Seq<FieldKind>, n: nat) -> int
    decreases n, 0nat,
{
    if n == 0 {
        0
    } else {
        offset_of(fields, (n - 1) as nat) + size_of(fields[n - 1])
    }
}

/// The byte offset of field `i` under C layout rules.
pub open spec fn offset_of(fields: Seq<FieldKind>, i: nat) -> int
    decreases i, 1nat,
{
    align_up(end_after(fields, i), align_of(fields[i as int]))
}

proof fn lemma_align_up_bounds(x: int, a: int)
    requires
        x >= 0,
        a == 1 || a == 4 || a == 8,
    ensures
        x <= align_up(x, a) < x + a,
{
}

proof fn lemma_end_monotonic(fields: Seq<FieldKind>, i: nat, j: nat)
    requires
        i <= j <= fields.len(),
    ensures
        0 <= end_after(fields, i) <= end_after(fields, j),
        i < j ==> end_after(fields, i) <= offset_of(fields, i),
    decreases j - i,
{
    lemma_end_nonneg(fields, i);
    if i < j {
        lemma_align_up_bounds(end_after(fields, i), align_of(fields[i as int]));
        lemma_end_monotonic(fields, i + 1, j);
    }
}

proof fn lemma_end_nonneg(fields: Seq<FieldKind>, n: nat)
    requires
        n <= fields.len(),
    ensures
        end_after(fields, n) >= 0,
    decreases n,
{
    if n > 0 {
        lemma_end_nonneg(fields, (n - 1) as nat);
        lemma_align_up_bounds(
            end_after(fields, (n - 1) as nat),
            align_of(fields[n - 1]),
        );
    }
}

fn kind_size(k: FieldKind) -> (r: u64)
    ensures
        r == size_of(k),
{
    match k {
        FieldKind::Pointer => 8,
        FieldKind::Byte => 1,
        FieldKind::Float32 => 4,
        FieldKind::Padding(n) => n as u64,
    }
}

fn kind_align(k: FieldKind) -> (r: u64)
    ensures
        r == align_of(k),
{
    match k {
        FieldKind::Pointer => 8,
        FieldKind::Byte => 1,
        FieldKind::Float32 => 4,
        FieldKind::Padding(_) => 1,
    }
}

/// Lays the fields out with C rules. Gives each field's offset, or `None`
/// where the overlay's extent does not fit in a `u64`.
pub fn field_offsets(fields: &Vec<FieldKind>) -> (r: Option<Vec<u64>>)
    ensures
        r is Some <==> end_after(fields@, fields@.len()) <= u64::MAX,
        r matches Some(offs) ==> offs@.len() == fields@.len() && forall|i: int|
            0 <= i < fields@.len() ==> offs@[i] == offset_of(fields@, i as nat),
{
    let mut offs: Vec<u64> = Vec::new();
    let mut end: u64 = 0;
    let mut i: usize = 0;
    while i < fields.len()
        invariant
            i <= fields@.len(),
            end == end_after(fields@, i as nat),
            offs@.len() == i,
            forall|j: int| 0 <= j < i ==> offs@[j] == offset_of(fields@, j as nat),
        decreases fields@.len() - i,
    {
        let k = fields[i];
        let a = kind_align(k);
        proof {
            lemma_align_up_bounds(end as int, a as int);
        }
        let rem = end % a;
        let pad: u64 = if rem == 0 { 0 } else { a - rem };
        let start = match end.checked_add(pad) {
            Some(s) => s,
            None => {
                proof {
                    lemma_end_monotonic(fields@, i as nat, fields@.len());
                    lemma_end_monotonic(fields@, (i + 1) as nat, fields@.len());
                }
                return None;
            },
        };
        assert(start == offset_of(fields@, i as nat));
        let next = match start.checked_add(kind_size(k)) {
            Some(n) => n,
            None => {
                proof {
                    lemma_end_monotonic(fields@, (i + 1) as nat, fields@.len());
                }
                return None;
            },
        };
        offs.push(start);
        end = next;
        i = i + 1;
    }
    Some(offs)
}

} // verus!
