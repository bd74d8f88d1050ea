//! Values on both sides of the bridge, and the converter between them.
use vstd::prelude::*;

verus! {

/// The engine's value types.
#[derive(Clone, Copy, Debug, PartialEq, Eq, Structural)]
pub enum ValType {
    I32,
    I64,
    F32,
    F64,
    ExternRef,
    FuncRef,
}

/// A value as the engine holds it. Floats are kept as their IEEE-754 bit
/// patterns; references name a host object or an engine function, or are null.
#[derive(Clone, Copy, Debug, PartialEq, Eq, Structural)]
pub enum Val {
    I32(i32),
    I64(i64),
    F32(u32),
    F64(u64),
    ExternRef(Option<u64>),
    FuncRef(Option<u64>),
}

/// A host value as the bridge sees it. A host float is a 64-bit IEEE-754 bit
/// pattern; an object or a function handle is named by its identity.
#[derive(Clone, Copy, Debug, PartialEq, Eq, Structural)]
pub enum HostValue {
    Nil,
    Bool(bool),
    Integer(i128),
    Float(u64),
    Object(u64),
    Func(u64),
}

pub open spec fn type_of(v: Val) -> ValType {
    match v {
        Val::I32(_) => ValType::I32,
        Val::I64(_) => ValType::I64,
        Val::F32(_) => ValType::F32,
        Val::F64(_) => ValType::F64,
        Val::ExternRef(_) => ValType::ExternRef,
        Val::FuncRef(_) => ValType::FuncRef,
    }
}

/// Shifts a nonzero 23-bit significand left until its bit 23 is set, counting
/// the shifts (at most 23).
pub open spec fn normalize(m: u64, k: nat) -> (u64, nat)
    decreases 23 - k,
{
    if k >= 23 || m & 0x800000u64 != 0 {
        (m, k)
    } else {
        normalize(m << 1u64, k + 1)
    }
}

/// The bits of the binary64 number that equals the binary32 number `b`; a NaN
/// keeps its sign and its payload, shifted to the top of the wider field.
pub open spec fn widen_spec(b: u32) -> u64 {
    let sign = ((b >> 31u32) as u64) << 63u64;
    let exp = (b >> 23u32) & 0xffu32;
    let man = (b & 0x7fffffu32) as u64;
    if exp == 0xffu32 {
        sign | (0x7ffu64 << 52u64) | (man << 29u64)
    } else if exp == 0 && man == 0 {
        sign
    } else if exp == 0 {
        let (x, k) = normalize(man, 0);
        sign | (((897 - k) as u64) << 52u64) | ((x & 0x7fffffu64) << 29u64)
    } else {
        sign | ((((exp as u64) + 896) as u64) << 52u64) | (man << 29u64)
    }
}

/// The bits of the binary32 number equal to the binary64 number `b`, where
/// there is one (no rounding). A NaN keeps its sign and the top 23 bits of its
/// payload, and is kept only where no payload bit is lost.
pub open spec fn narrow_spec(b: u64) -> Option<u32> {
    let sign = ((b >> 63u64) as u32) << 31u32;
    let exp = (b >> 52u64) & 0x7ffu64;
    let man = b & 0xfffffffffffffu64;
    let low = man & 0x1fffffffu64;
    if exp == 0x7ffu64 {
        if low == 0 {
            Some(sign | (0xffu32 << 23u32) | ((man >> 29u64) as u32))
        } else {
            None
        }
    } else if exp == 0 {
        if man == 0 {
            Some(sign)
        } else {
            None
        }
    } else if 897 <= exp <= 1150 {
        if low == 0 {
            Some(sign | (((exp - 896) as u32) << 23u32) | ((man >> 29u64) as u32))
        } else {
            None
        }
    } else if 874 <= exp < 897 {
        let sig = man | (1u64 << 52u64);
        let s = (926 - exp) as u64;
        if sig & (((1u64 << s) - 1) as u64) == 0 {
            Some(sign | ((sig >> s) as u32))
        } else {
            None
        }
    } else {
        None
    }
}

/// The host value that an engine value becomes.
pub open spec fn host_of(v: Val) -> HostValue {
    match v {
        Val::I32(x) => HostValue::Integer(x as i128),
        Val::I64(x) => HostValue::Integer(x as i128),
        Val::F32(b) => HostValue::Float(widen_spec(b)),
        Val::F64(b) => HostValue::Float(b),
        Val::ExternRef(None) => HostValue::Nil,
        Val::ExternRef(Some(o)) => HostValue::Object(o),
        Val::FuncRef(None) => HostValue::Nil,
        Val::FuncRef(Some(f)) => HostValue::Func(f),
    }
}

/// The engine value of type `t` that a host value becomes, where there is one.
/// Integers convert only within the type's range; floats only where exact.
pub open spec fn vm_of(h: HostValue, t: ValType) -> Option<Val> {
    match (t, h) {
        (ValType::I32, HostValue::Integer(n)) => if i32::MIN <= n <= i32::MAX {
            Some(Val::I32(n as i32))
        } else {
            None
        },
        (ValType::I64, HostValue::Integer(n)) => if i64::MIN <= n <= i64::MAX {
            Some(Val::I64(n as i64))
        } else {
            None
        },
        (ValType::F32, HostValue::Float(b)) => match narrow_spec(b) {
            Some(c) => Some(Val::F32(c)),
            None => None,
        },
        (ValType::F64, HostValue::Float(b)) => Some(Val::F64(b)),
        (ValType::ExternRef, HostValue::Nil) => Some(Val::ExternRef(None)),
        (ValType::ExternRef, HostValue::Object(o)) => Some(Val::ExternRef(Some(o))),
        (ValType::FuncRef, HostValue::Nil) => Some(Val::FuncRef(None)),
        (ValType::FuncRef, HostValue::Func(f)) => Some(Val::FuncRef(Some(f))),
        _ => None,
    }
}

fn normalize_exec(m: u64) -> (r: (u64, u64))
    requires
        0 < m < 0x800000,
    ensures
        (r.0, r.1 as nat) == normalize(m, 0),
        r.1 <= 23,
{
    let mut x: u64 = m;
    let mut k: u64 = 0;
    while k < 23 && x & 0x800000u64 == 0
        invariant
            k <= 23,
            x < 0x1000000,
            normalize(x, k as nat) == normalize(m, 0),
        decreases 23 - k,
    {
        assert(x < 0x1000000 && x & 0x800000u64 == 0 ==> x << 1u64 < 0x1000000) by (bit_vector);
        x = x << 1u64;
        k = k + 1;
    }
    (x, k)
}

/// Widens a binary32 bit pattern to the binary64 pattern of the same number.
pub fn widen(b: u32) -> (r: u64)
    ensures
        r == widen_spec(b),
{
    let sign = ((b >> 31u32) as u64) << 63u64;
    let exp = (b >> 23u32) & 0xffu32;
    let man = (b & 0x7fffffu32) as u64;
    if exp == 0xffu32 {
        sign | (0x7ffu64 << 52u64) | (man << 29u64)
    } else if exp == 0 && man == 0 {
        sign
    } else if exp == 0 {
        assert(b & 0x7fffffu32 < 0x800000) by (bit_vector);
        let (x, k) = normalize_exec(man);
        sign | ((897 - k) << 52u64) | ((x & 0x7fffffu64) << 29u64)
    } else {
        assert((b >> 23u32) & 0xffu32 <= 0xff) by (bit_vector);
        sign | (((exp as u64) + 896) << 52u64) | (man << 29u64)
    }
}

/// Narrows a binary64 bit pattern to binary32 where that is exact.
pub fn narrow(b: u64) -> (r: Option<u32>)
    ensures
        r == narrow_spec(b),
{
    assert(b >> 63u64 <= 1) by (bit_vector);
    assert((b & 0xfffffffffffffu64) >> 29u64 < 0x800000) by (bit_vector);
    let sign = ((b >> 63u64) as u32) << 31u32;
    let exp = (b >> 52u64) & 0x7ffu64;
    let man = b & 0xfffffffffffffu64;
    let low = man & 0x1fffffffu64;
    if exp == 0x7ffu64 {
        if low == 0 {
            Some(sign | (0xffu32 << 23u32) | ((man >> 29u64) as u32))
        } else {
            None
        }
    } else if exp == 0 {
        if man == 0 {
            Some(sign)
        } else {
            None
        }
    } else if 897 <= exp && exp <= 1150 {
        if low == 0 {
            Some(sign | (((exp - 896) as u32) << 23u32) | ((man >> 29u64) as u32))
        } else {
            None
        }
    } else if 874 <= exp && exp < 897 {
        let sig = man | (1u64 << 52u64);
        let s = 926 - exp;
        assert(30 <= s <= 52 ==> (1u64 << s) >= 1) by (bit_vector);
        if sig & ((1u64 << s) - 1) == 0 {
            Some(sign | ((sig >> s) as u32))
        } else {
            None
        }
    } else {
        None
    }
}

/// Converts an engine value to the host value it stands for.
pub fn to_host(v: &Val) -> (r: HostValue)
    ensures
        r == host_of(*v),
{
    match *v {
        Val::I32(x) => HostValue::Integer(x as i128),
        Val::I64(x) => HostValue::Integer(x as i128),
        Val::F32(b) => HostValue::Float(widen(b)),
        Val::F64(b) => HostValue::Float(b),
        Val::ExternRef(None) => HostValue::Nil,
        Val::ExternRef(Some(o)) => HostValue::Object(o),
        Val::FuncRef(None) => HostValue::Nil,
        Val::FuncRef(Some(f)) => HostValue::Func(f),
    }
}

/// Converts a host value to an engine value of type `t`; `None` where the
/// value is of another kind, out of range, or not exact in the type.
pub fn to_vm(h: &HostValue, t: ValType) -> (r: Option<Val>)
    ensures
        r == vm_of(*h, t),
        r matches Some(v) ==> type_of(v) == t,
{
    match (t, *h) {
        (ValType::I32, HostValue::Integer(n)) => {
            if i32::MIN as i128 <= n && n <= i32::MAX as i128 {
                Some(Val::I32(n as i32))
            } else {
                None
            }
        },
        (ValType::I64, HostValue::Integer(n)) => {
            if i64::MIN as i128 <= n && n <= i64::MAX as i128 {
                Some(Val::I64(n as i64))
            } else {
                None
            }
        },
        (ValType::F32, HostValue::Float(b)) => match narrow(b) {
            Some(c) => Some(Val::F32(c)),
            None => None,
        },
        (ValType::F64, HostValue::Float(b)) => Some(Val::F64(b)),
        (ValType::ExternRef, HostValue::Nil) => Some(Val::ExternRef(None)),
        (ValType::ExternRef, HostValue::Object(o)) => Some(Val::ExternRef(Some(o))),
        (ValType::FuncRef, HostValue::Nil) => Some(Val::FuncRef(None)),
        (ValType::FuncRef, HostValue::Func(f)) => Some(Val::FuncRef(Some(f))),
        _ => None,
    }
}

/// A binary32 pattern is subnormal: zero exponent, nonzero significand.
pub open spec fn is_subnormal32(b: u32) -> bool {
    (b >> 23u32) & 0xffu32 == 0 && b & 0x7fffffu32 != 0
}

proof fn lemma_fields64(s: u64, e: u64, m: u64)
    requires
        s <= 1,
        e < 2048,
        m < 0x800000,
    ensures
        ((s << 63u64) | (e << 52u64) | (m << 29u64)) >> 63u64 == s,
        (((s << 63u64) | (e << 52u64) | (m << 29u64)) >> 52u64) & 0x7ffu64 == e,
        ((s << 63u64) | (e << 52u64) | (m << 29u64)) & 0xfffffffffffffu64 == m << 29u64,
        (m << 29u64) & 0x1fffffffu64 == 0,
        (m << 29u64) >> 29u64 == m,
{
    assert(((s << 63u64) | (e << 52u64) | (m << 29u64)) >> 63u64 == s) by (bit_vector)
        requires s <= 1, e < 2048, m < 0x800000;
    assert((((s << 63u64) | (e << 52u64) | (m << 29u64)) >> 52u64) & 0x7ffu64 == e) by (bit_vector)
        requires s <= 1, e < 2048, m < 0x800000;
    assert(((s << 63u64) | (e << 52u64) | (m << 29u64)) & 0xfffffffffffffu64 == m << 29u64)
        by (bit_vector)
        requires s <= 1, e < 2048, m < 0x800000;
    assert((m << 29u64) & 0x1fffffffu64 == 0) by (bit_vector);
    assert((m << 29u64) >> 29u64 == m) by (bit_vector)
        requires m < 0x800000;
}

proof fn lemma_normalize(m: u64, k: nat, man: u64)
    requires
        1 <= man < 0x800000,
        k <= 23,
        m == man << (k as u64),
        m < 0x1000000,
    ensures
        ({
            let (x, j) = normalize(m, k);
            &&& k <= j <= 23
            &&& m & 0x800000u64 == 0 ==> k < j
            &&& x == man << (j as u64)
            &&& 0x800000 <= x < 0x1000000
        }),
    decreases 23 - k,
{
    let kk = k as u64;
    if m & 0x800000u64 != 0 {
        assert(m & 0x800000u64 != 0 ==> m >= 0x800000) by (bit_vector);
    } else if k >= 23 {
        assert(1 <= man < 0x800000 ==> man << 23u64 >= 0x800000) by (bit_vector);
        assert(0x800000 <= m < 0x1000000 ==> m & 0x800000u64 != 0) by (bit_vector);
    } else {
        assert(m < 0x1000000 && m & 0x800000u64 == 0 ==> m << 1u64 < 0x1000000) by (bit_vector);
        assert(m == man << kk && kk < 23 ==> m << 1u64 == man << vstd::prelude::add(kk, 1)) by (bit_vector);
        lemma_normalize(m << 1u64, k + 1, man);
    }
}

proof fn lemma_subnormal_bits(x: u64, k: u64, man: u64)
    requires
        1 <= man < 0x800000,
        1 <= k <= 23,
        x == man << k,
        0x800000 <= x < 0x1000000,
    ensures
        ((x & 0x7fffffu64) << 29u64) | (1u64 << 52u64) == x << 29u64,
        (x << 29u64) & (((1u64 << vstd::prelude::add(29, k)) - 1) as u64) == 0,
        (x << 29u64) >> vstd::prelude::add(29, k) == man,
        (x & 0x7fffffu64) < 0x800000,
{
    assert(((x & 0x7fffffu64) << 29u64) | (1u64 << 52u64) == x << 29u64) by (bit_vector)
        requires 0x800000 <= x < 0x1000000;
    assert(1 <= k <= 23 ==> (1u64 << vstd::prelude::add(29, k)) >= 1) by (bit_vector);
    assert((x << 29u64) & (((1u64 << vstd::prelude::add(29, k)) - 1) as u64) == 0) by (bit_vector)
        requires 1 <= k <= 23, x == man << k, man < 0x800000, x < 0x1000000;
    assert((x << 29u64) >> vstd::prelude::add(29, k) == man) by (bit_vector)
        requires 1 <= k <= 23, x == man << k, man < 0x800000, x < 0x1000000;
    assert((x & 0x7fffffu64) < 0x800000) by (bit_vector);
}

/// Widening a binary32 pattern, then narrowing the result, gives the pattern
/// back.
pub proof fn lemma_narrow_widen(b: u32)
    ensures
        narrow_spec(widen_spec(b)) == Some(b),
{
    if is_subnormal32(b) {
        let s = (b >> 31u32) as u64;
        let man = (b & 0x7fffffu32) as u64;
        assert(b >> 31u32 <= 1) by (bit_vector);
        assert(b & 0x7fffffu32 < 0x800000) by (bit_vector);
        assert(man < 0x800000 ==> man & 0x800000u64 == 0) by (bit_vector);
        assert(man << 0u64 == man) by (bit_vector);
        lemma_normalize(man, 0, man);
        let (x, j) = normalize(man, 0);
        let k = j as u64;
        lemma_subnormal_bits(x, k, man);
        let e = (897 - j) as u64;
        lemma_fields64(s, e, x & 0x7fffffu64);
        let w = widen_spec(b);
        assert(w == (s << 63u64) | (e << 52u64) | ((x & 0x7fffffu64) << 29u64));
        assert(926 - e == vstd::prelude::add(29, k));
        assert(s as u32 == b >> 31u32);
        assert(man as u32 == b & 0x7fffffu32);
        assert(b == ((b >> 31u32) << 31u32) | (b & 0x7fffffu32)) by (bit_vector)
            requires (b >> 23u32) & 0xffu32 == 0;
        assert(narrow_spec(w) == Some(((s as u32) << 31u32) | (man as u32)));
    } else {
        lemma_narrow_widen_regular(b);
    }
}

/// Widening a binary32 pattern that is not subnormal, then narrowing the
/// result, gives the pattern back.
proof fn lemma_narrow_widen_regular(b: u32)
    requires
        !is_subnormal32(b),
    ensures
        narrow_spec(widen_spec(b)) == Some(b),
{
    let s = (b >> 31u32) as u64;
    let exp = (b >> 23u32) & 0xffu32;
    let man = (b & 0x7fffffu32) as u64;
    assert(b >> 31u32 <= 1) by (bit_vector);
    assert((b >> 23u32) & 0xffu32 <= 0xff) by (bit_vector);
    assert(b & 0x7fffffu32 < 0x800000) by (bit_vector);
    assert(b == ((b >> 31u32) << 31u32) | (((b >> 23u32) & 0xffu32) << 23u32) | (b
        & 0x7fffffu32)) by (bit_vector);
    let w = widen_spec(b);
    assert(s as u32 == b >> 31u32);
    assert(man as u32 == b & 0x7fffffu32);
    if exp == 0xffu32 {
        lemma_fields64(s, 0x7ff, man);
        assert(w >> 63u64 == s);
        assert((w >> 52u64) & 0x7ffu64 == 0x7ffu64);
        assert(w & 0xfffffffffffffu64 == man << 29u64);
        assert(narrow_spec(w) == Some(((s as u32) << 31u32) | (0xffu32 << 23u32) | (man as u32)));
        assert(narrow_spec(w) == Some(b));
    } else if exp == 0 {
        assert(man == 0);
        lemma_fields64(s, 0, 0);
        assert((s << 63u64) | (0u64 << 52u64) | (0u64 << 29u64) == s << 63u64) by (bit_vector);
        assert(w == s << 63u64);
        assert(w >> 63u64 == s);
        assert((w >> 52u64) & 0x7ffu64 == 0);
        assert(w & 0xfffffffffffffu64 == 0u64 << 29u64);
        assert(0u64 << 29u64 == 0) by (bit_vector);
        assert(b == (b >> 31u32) << 31u32) by (bit_vector)
            requires (b >> 23u32) & 0xffu32 == 0, b & 0x7fffffu32 == 0;
        assert(narrow_spec(w) == Some(b));
    } else {
        lemma_fields64(s, ((exp as u64) + 896) as u64, man);
        assert(narrow_spec(w) == Some(((s as u32) << 31u32) | (exp << 23u32) | (man as u32)));
        assert(narrow_spec(w) == Some(b));
    }
}

/// Converting an engine value to the host and back at its own type gives it
/// back.
pub proof fn lemma_vm_of_host_of(v: Val)
    ensures
        vm_of(host_of(v), type_of(v)) == Some(v),
{
    if let Val::F32(b) = v {
        lemma_narrow_widen(b);
    }
}

} // verus!
