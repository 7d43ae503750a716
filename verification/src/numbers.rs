//! The enumeration algebra for fixed-width integer leaves.
//!
//! An n-bit integer is an externally supplied base case: its domain is
//! already finite and ordered, with cardinality two to the n. Ordinals
//! run from the type's minimum (ordinal zero) to its maximum.

use vstd::prelude::*;

verus! {

use crate::enumeration::Enum;

impl Enum for u8 {
    open spec fn spec_card() -> nat {
        256
    }

    open spec fn wf(self) -> bool {
        true
    }

    open spec fn spec_index(self) -> nat {
        self as nat
    }

    open spec fn value_at(i: nat) -> u8 {
        i as u8
    }

    proof fn lemma_index_bijective(self) {
    }

    proof fn lemma_value_at_wf(i: nat) {
    }

    fn card() -> (r: Option<usize>) {
        Some(256)
    }

    fn own(&self) -> (r: Self) {
        *self
    }

    fn to_index(&self) -> (r: Option<usize>) {
        Some(*self as usize)
    }

    fn from_index(i: usize) -> (r: Option<Self>) {
        if i < 256 {
            Some(i as u8)
        } else {
            None
        }
    }

    fn first() -> (r: Option<Self>) {
        Some(0)
    }

    fn last() -> (r: Option<Self>) {
        Some(255)
    }

    fn prev(&self) -> (r: Option<Self>) {
        if *self == 0 {
            None
        } else {
            Some(*self - 1)
        }
    }

    fn succ(&self) -> (r: Option<Self>) {
        if *self == 255 {
            None
        } else {
            Some(*self + 1)
        }
    }

    fn count_from(&self) -> (r: Option<usize>) {
        Some(256 - (*self as usize))
    }

    fn values_from(&self) -> (r: Vec<Self>) {
        let base = *self as usize;
        let n: usize = 256 - base;
        let mut out: Vec<u8> = Vec::new();
        let mut k: usize = 0;
        while k < n
            invariant
                base == self.spec_index(),
                n == 256 - base,
                k <= n,
                out@.len() == k,
                forall|j: int| 0 <= j < k ==> out@[j] == Self::value_at((base + j) as nat),
            decreases n - k,
        {
            out.push((base + k) as u8);
            k += 1;
        }
        out
    }
}

impl Enum for i8 {
    open spec fn spec_card() -> nat {
        256
    }

    open spec fn wf(self) -> bool {
        true
    }

    open spec fn spec_index(self) -> nat {
        (self + 128) as nat
    }

    open spec fn value_at(i: nat) -> i8 {
        (i - 128) as i8
    }

    proof fn lemma_index_bijective(self) {
    }

    proof fn lemma_value_at_wf(i: nat) {
    }

    fn card() -> (r: Option<usize>) {
        Some(256)
    }

    fn own(&self) -> (r: Self) {
        *self
    }

    fn to_index(&self) -> (r: Option<usize>) {
        Some(((*self as i16) + 128) as usize)
    }

    fn from_index(i: usize) -> (r: Option<Self>) {
        if i < 256 {
            Some(((i as i16) - 128) as i8)
        } else {
            None
        }
    }

    fn first() -> (r: Option<Self>) {
        Some(-128)
    }

    fn last() -> (r: Option<Self>) {
        Some(127)
    }

    fn prev(&self) -> (r: Option<Self>) {
        if *self == -128 {
            None
        } else {
            Some(*self - 1)
        }
    }

    fn succ(&self) -> (r: Option<Self>) {
        if *self == 127 {
            None
        } else {
            Some(*self + 1)
        }
    }

    fn count_from(&self) -> (r: Option<usize>) {
        Some((128 - (*self as i16)) as usize)
    }

    fn values_from(&self) -> (r: Vec<Self>) {
        let base = *self as i16;
        let n: usize = (128 - base) as usize;
        let mut out: Vec<i8> = Vec::new();
        let mut k: usize = 0;
        while k < n
            invariant
                base == self as i16,
                n == 128 - base,
                -128 <= base <= 127,
                k <= n,
                out@.len() == k,
                forall|j: int|
                    0 <= j < k ==> out@[j] == Self::value_at((self.spec_index() + j) as nat),
            decreases n - k,
        {
            out.push((base + (k as i16)) as i8);
            k += 1;
        }
        out
    }
}

impl Enum for u16 {
    open spec fn spec_card() -> nat {
        65536
    }

    open spec fn wf(self) -> bool {
        true
    }

    open spec fn spec_index(self) -> nat {
        self as nat
    }

    open spec fn value_at(i: nat) -> u16 {
        i as u16
    }

    proof fn lemma_index_bijective(self) {
    }

    proof fn lemma_value_at_wf(i: nat) {
    }

    fn card() -> (r: Option<usize>) {
        Some(65536)
    }

    fn own(&self) -> (r: Self) {
        *self
    }

    fn to_index(&self) -> (r: Option<usize>) {
        Some(*self as usize)
    }

    fn from_index(i: usize) -> (r: Option<Self>) {
        if i < 65536 {
            Some(i as u16)
        } else {
            None
        }
    }

    fn first() -> (r: Option<Self>) {
        Some(0)
    }

    fn last() -> (r: Option<Self>) {
        Some(65535)
    }

    fn prev(&self) -> (r: Option<Self>) {
        if *self == 0 {
            None
        } else {
            Some(*self - 1)
        }
    }

    fn succ(&self) -> (r: Option<Self>) {
        if *self == 65535 {
            None
        } else {
            Some(*self + 1)
        }
    }

    fn count_from(&self) -> (r: Option<usize>) {
        Some(65536 - (*self as usize))
    }

    fn values_from(&self) -> (r: Vec<Self>) {
        let base = *self as usize;
        let n: usize = 65536 - base;
        let mut out: Vec<u16> = Vec::new();
        let mut k: usize = 0;
        while k < n
            invariant
                base == self.spec_index(),
                n == 65536 - base,
                k <= n,
                out@.len() == k,
                forall|j: int| 0 <= j < k ==> out@[j] == Self::value_at((base + j) as nat),
            decreases n - k,
        {
            out.push((base + k) as u16);
            k += 1;
        }
        out
    }
}

impl Enum for i16 {
    open spec fn spec_card() -> nat {
        65536
    }

    open spec fn wf(self) -> bool {
        true
    }

    open spec fn spec_index(self) -> nat {
        (self + 32768) as nat
    }

    open spec fn value_at(i: nat) -> i16 {
        (i - 32768) as i16
    }

    proof fn lemma_index_bijective(self) {
    }

    proof fn lemma_value_at_wf(i: nat) {
    }

    fn card() -> (r: Option<usize>) {
        Some(65536)
    }

    fn own(&self) -> (r: Self) {
        *self
    }

    fn to_index(&self) -> (r: Option<usize>) {
        Some(((*self as i32) + 32768) as usize)
    }

    fn from_index(i: usize) -> (r: Option<Self>) {
        if i < 65536 {
            Some(((i as i32) - 32768) as i16)
        } else {
            None
        }
    }

    fn first() -> (r: Option<Self>) {
        Some(-32768)
    }

    fn last() -> (r: Option<Self>) {
        Some(32767)
    }

    fn prev(&self) -> (r: Option<Self>) {
        if *self == -32768 {
            None
        } else {
            Some(*self - 1)
        }
    }

    fn succ(&self) -> (r: Option<Self>) {
        if *self == 32767 {
            None
        } else {
            Some(*self + 1)
        }
    }

    fn count_from(&self) -> (r: Option<usize>) {
        Some((32768 - (*self as i32)) as usize)
    }

    fn values_from(&self) -> (r: Vec<Self>) {
        let base = *self as i32;
        let n: usize = (32768 - base) as usize;
        let mut out: Vec<i16> = Vec::new();
        let mut k: usize = 0;
        while k < n
            invariant
                base == self as i32,
                n == 32768 - base,
                -32768 <= base <= 32767,
                k <= n,
                out@.len() == k,
                forall|j: int|
                    0 <= j < k ==> out@[j] == Self::value_at((self.spec_index() + j) as nat),
            decreases n - k,
        {
            out.push((base + (k as i32)) as i16);
            k += 1;
        }
        out
    }
}

impl Enum for u32 {
    open spec fn spec_card() -> nat {
        4294967296
    }

    open spec fn wf(self) -> bool {
        true
    }

    open spec fn spec_index(self) -> nat {
        self as nat
    }

    open spec fn value_at(i: nat) -> u32 {
        i as u32
    }

    proof fn lemma_index_bijective(self) {
    }

    proof fn lemma_value_at_wf(i: nat) {
    }

    fn card() -> (r: Option<usize>) {
        if usize::MAX > 4294967295 {
            Some(65536 * 65536)
        } else {
            None
        }
    }

    fn own(&self) -> (r: Self) {
        *self
    }

    fn to_index(&self) -> (r: Option<usize>) {
        Some(*self as usize)
    }

    fn from_index(i: usize) -> (r: Option<Self>) {
        if (i as u64) < 4294967296u64 {
            Some(i as u32)
        } else {
            None
        }
    }

    fn first() -> (r: Option<Self>) {
        Some(0)
    }

    fn last() -> (r: Option<Self>) {
        Some(4294967295)
    }

    fn prev(&self) -> (r: Option<Self>) {
        if *self == 0 {
            None
        } else {
            Some(*self - 1)
        }
    }

    fn succ(&self) -> (r: Option<Self>) {
        if *self == 4294967295 {
            None
        } else {
            Some(*self + 1)
        }
    }

    fn count_from(&self) -> (r: Option<usize>) {
        let d = ((4294967295u32 - *self) as u64) + 1;
        if d <= (usize::MAX as u64) {
            Some(d as usize)
        } else {
            None
        }
    }

    fn values_from(&self) -> (r: Vec<Self>) {
        let n = (4294967295u32 - *self) as usize + 1;
        let mut out: Vec<u32> = Vec::new();
        let mut k: usize = 0;
        while k < n
            invariant
                n == 4294967296 - self.spec_index(),
                k <= n,
                out@.len() == k,
                forall|j: int|
                    0 <= j < k ==> out@[j] == Self::value_at((self.spec_index() + j) as nat),
            decreases n - k,
        {
            out.push(*self + (k as u32));
            k += 1;
        }
        out
    }
}

impl Enum for i32 {
    open spec fn spec_card() -> nat {
        4294967296
    }

    open spec fn wf(self) -> bool {
        true
    }

    open spec fn spec_index(self) -> nat {
        (self + 2147483648) as nat
    }

    open spec fn value_at(i: nat) -> i32 {
        (i - 2147483648) as i32
    }

    proof fn lemma_index_bijective(self) {
    }

    proof fn lemma_value_at_wf(i: nat) {
    }

    fn card() -> (r: Option<usize>) {
        if usize::MAX > 4294967295 {
            Some(65536 * 65536)
        } else {
            None
        }
    }

    fn own(&self) -> (r: Self) {
        *self
    }

    fn to_index(&self) -> (r: Option<usize>) {
        Some(((*self as i64) + 2147483648) as usize)
    }

    fn from_index(i: usize) -> (r: Option<Self>) {
        if (i as u64) < 4294967296u64 {
            Some(((i as i64) - 2147483648) as i32)
        } else {
            None
        }
    }

    fn first() -> (r: Option<Self>) {
        Some(-2147483648)
    }

    fn last() -> (r: Option<Self>) {
        Some(2147483647)
    }

    fn prev(&self) -> (r: Option<Self>) {
        if *self == -2147483648 {
            None
        } else {
            Some(*self - 1)
        }
    }

    fn succ(&self) -> (r: Option<Self>) {
        if *self == 2147483647 {
            None
        } else {
            Some(*self + 1)
        }
    }

    fn count_from(&self) -> (r: Option<usize>) {
        let d = (2147483648i64 - (*self as i64)) as u64;
        if d <= (usize::MAX as u64) {
            Some(d as usize)
        } else {
            None
        }
    }

    fn values_from(&self) -> (r: Vec<Self>) {
        let base = *self as i64;
        let n = (2147483648i64 - base) as usize;
        let mut out: Vec<i32> = Vec::new();
        let mut k: usize = 0;
        while k < n
            invariant
                base == self as i64,
                n == 2147483648 - base,
                -2147483648 <= base <= 2147483647,
                k <= n,
                out@.len() == k,
                forall|j: int|
                    0 <= j < k ==> out@[j] == Self::value_at((self.spec_index() + j) as nat),
            decreases n - k,
        {
            out.push((base + (k as i64)) as i32);
            k += 1;
        }
        out
    }
}

impl Enum for u64 {
    open spec fn spec_card() -> nat {
        18446744073709551616
    }

    open spec fn wf(self) -> bool {
        true
    }

    open spec fn spec_index(self) -> nat {
        self as nat
    }

    open spec fn value_at(i: nat) -> u64 {
        i as u64
    }

    proof fn lemma_index_bijective(self) {
    }

    proof fn lemma_value_at_wf(i: nat) {
    }

    fn card() -> (r: Option<usize>) {
        None
    }

    fn own(&self) -> (r: Self) {
        *self
    }

    fn to_index(&self) -> (r: Option<usize>) {
        if *self <= (usize::MAX as u64) {
            Some(*self as usize)
        } else {
            None
        }
    }

    fn from_index(i: usize) -> (r: Option<Self>) {
        Some(i as u64)
    }

    fn first() -> (r: Option<Self>) {
        Some(0)
    }

    fn last() -> (r: Option<Self>) {
        Some(18446744073709551615)
    }

    fn prev(&self) -> (r: Option<Self>) {
        if *self == 0 {
            None
        } else {
            Some(*self - 1)
        }
    }

    fn succ(&self) -> (r: Option<Self>) {
        if *self == 18446744073709551615 {
            None
        } else {
            Some(*self + 1)
        }
    }

    fn count_from(&self) -> (r: Option<usize>) {
        let d = 18446744073709551615u64 - *self;
        if d < (usize::MAX as u64) {
            Some((d as usize) + 1)
        } else {
            None
        }
    }

    fn values_from(&self) -> (r: Vec<Self>) {
        let d = 18446744073709551615u64 - *self;
        let n = (d as usize) + 1;
        let mut out: Vec<u64> = Vec::new();
        let mut k: usize = 0;
        while k < n
            invariant
                n == 18446744073709551616 - self.spec_index(),
                k <= n,
                out@.len() == k,
                forall|j: int|
                    0 <= j < k ==> out@[j] == Self::value_at((self.spec_index() + j) as nat),
            decreases n - k,
        {
            out.push(*self + (k as u64));
            k += 1;
        }
        out
    }
}

impl Enum for i64 {
    open spec fn spec_card() -> nat {
        18446744073709551616
    }

    open spec fn wf(self) -> bool {
        true
    }

    open spec fn spec_index(self) -> nat {
        (self + 9223372036854775808) as nat
    }

    open spec fn value_at(i: nat) -> i64 {
        (i - 9223372036854775808) as i64
    }

    proof fn lemma_index_bijective(self) {
    }

    proof fn lemma_value_at_wf(i: nat) {
    }

    fn card() -> (r: Option<usize>) {
        None
    }

    fn own(&self) -> (r: Self) {
        *self
    }

    fn to_index(&self) -> (r: Option<usize>) {
        let v = (*self as i128) + 9223372036854775808i128;
        if v <= (usize::MAX as i128) {
            Some(v as usize)
        } else {
            None
        }
    }

    fn from_index(i: usize) -> (r: Option<Self>) {
        Some(((i as i128) - 9223372036854775808i128) as i64)
    }

    fn first() -> (r: Option<Self>) {
        Some(-9223372036854775808)
    }

    fn last() -> (r: Option<Self>) {
        Some(9223372036854775807)
    }

    fn prev(&self) -> (r: Option<Self>) {
        if *self == -9223372036854775808 {
            None
        } else {
            Some(*self - 1)
        }
    }

    fn succ(&self) -> (r: Option<Self>) {
        if *self == 9223372036854775807 {
            None
        } else {
            Some(*self + 1)
        }
    }

    fn count_from(&self) -> (r: Option<usize>) {
        let d = 9223372036854775807i128 - (*self as i128);
        if d < (usize::MAX as i128) {
            Some((d as usize) + 1)
        } else {
            None
        }
    }

    fn values_from(&self) -> (r: Vec<Self>) {
        let base = *self as i128;
        let d = 9223372036854775807i128 - base;
        let n = (d as usize) + 1;
        let mut out: Vec<i64> = Vec::new();
        let mut k: usize = 0;
        while k < n
            invariant
                base == *self as i128,
                n == 18446744073709551616 - self.spec_index(),
                k <= n,
                out@.len() == k,
                forall|j: int|
                    0 <= j < k ==> out@[j] == Self::value_at((self.spec_index() + j) as nat),
            decreases n - k,
        {
            out.push((base + (k as i128)) as i64);
            k += 1;
        }
        out
    }
}

impl Enum for usize {
    open spec fn spec_card() -> nat {
        (usize::MAX + 1) as nat
    }

    open spec fn wf(self) -> bool {
        true
    }

    open spec fn spec_index(self) -> nat {
        self as nat
    }

    open spec fn value_at(i: nat) -> usize {
        i as usize
    }

    proof fn lemma_index_bijective(self) {
    }

    proof fn lemma_value_at_wf(i: nat) {
    }

    fn card() -> (r: Option<usize>) {
        None
    }

    fn own(&self) -> (r: Self) {
        *self
    }

    fn to_index(&self) -> (r: Option<usize>) {
        Some(*self)
    }

    fn from_index(i: usize) -> (r: Option<Self>) {
        Some(i)
    }

    fn first() -> (r: Option<Self>) {
        Some(0)
    }

    fn last() -> (r: Option<Self>) {
        Some(usize::MAX)
    }

    fn prev(&self) -> (r: Option<Self>) {
        if *self == 0 {
            None
        } else {
            Some(*self - 1)
        }
    }

    fn succ(&self) -> (r: Option<Self>) {
        if *self == usize::MAX {
            None
        } else {
            Some(*self + 1)
        }
    }

    fn count_from(&self) -> (r: Option<usize>) {
        if *self == 0 {
            None
        } else {
            Some(usize::MAX - *self + 1)
        }
    }

    fn values_from(&self) -> (r: Vec<Self>) {
        let base = *self;
        let n = usize::MAX - base + 1;
        let mut out: Vec<usize> = Vec::new();
        let mut k: usize = 0;
        while k < n
            invariant
                base == *self,
                n == usize::MAX - base + 1,
                k <= n,
                out@.len() == k,
                forall|j: int|
                    0 <= j < k ==> out@[j] == Self::value_at((self.spec_index() + j) as nat),
            decreases n - k,
        {
            out.push(base + k);
            k += 1;
        }
        out
    }
}

impl Enum for isize {
    open spec fn spec_card() -> nat {
        (usize::MAX + 1) as nat
    }

    open spec fn wf(self) -> bool {
        true
    }

    open spec fn spec_index(self) -> nat {
        (self - isize::MIN) as nat
    }

    open spec fn value_at(i: nat) -> isize {
        (i + isize::MIN) as isize
    }

    proof fn lemma_index_bijective(self) {
    }

    proof fn lemma_value_at_wf(i: nat) {
    }

    fn card() -> (r: Option<usize>) {
        None
    }

    fn own(&self) -> (r: Self) {
        *self
    }

    fn to_index(&self) -> (r: Option<usize>) {
        let v = (*self as i128) - (isize::MIN as i128);
        Some(v as usize)
    }

    fn from_index(i: usize) -> (r: Option<Self>) {
        Some(((i as i128) + (isize::MIN as i128)) as isize)
    }

    fn first() -> (r: Option<Self>) {
        Some(isize::MIN)
    }

    fn last() -> (r: Option<Self>) {
        Some(isize::MAX)
    }

    fn prev(&self) -> (r: Option<Self>) {
        if *self == isize::MIN {
            None
        } else {
            Some(*self - 1)
        }
    }

    fn succ(&self) -> (r: Option<Self>) {
        if *self == isize::MAX {
            None
        } else {
            Some(*self + 1)
        }
    }

    fn count_from(&self) -> (r: Option<usize>) {
        if *self == isize::MIN {
            None
        } else {
            let d = (isize::MAX as i128) - (*self as i128);
            Some((d as usize) + 1)
        }
    }

    fn values_from(&self) -> (r: Vec<Self>) {
        let base = *self as i128;
        let d = (isize::MAX as i128) - base;
        let n = (d as usize) + 1;
        let mut out: Vec<isize> = Vec::new();
        let mut k: usize = 0;
        while k < n
            invariant
                base == *self as i128,
                n == usize::MAX + 1 - self.spec_index(),
                k <= n,
                out@.len() == k,
                forall|j: int|
                    0 <= j < k ==> out@[j] == Self::value_at((self.spec_index() + j) as nat),
            decreases n - k,
        {
            out.push((base + (k as i128)) as isize);
            k += 1;
        }
        out
    }
}

impl Enum for u128 {
    open spec fn spec_card() -> nat {
        (u128::MAX + 1) as nat
    }

    open spec fn wf(self) -> bool {
        true
    }

    open spec fn spec_index(self) -> nat {
        self as nat
    }

    open spec fn value_at(i: nat) -> u128 {
        i as u128
    }

    proof fn lemma_index_bijective(self) {
    }

    proof fn lemma_value_at_wf(i: nat) {
    }

    fn card() -> (r: Option<usize>) {
        None
    }

    fn own(&self) -> (r: Self) {
        *self
    }

    fn to_index(&self) -> (r: Option<usize>) {
        if *self <= (usize::MAX as u128) {
            Some(*self as usize)
        } else {
            None
        }
    }

    fn from_index(i: usize) -> (r: Option<Self>) {
        Some(i as u128)
    }

    fn first() -> (r: Option<Self>) {
        Some(0)
    }

    fn last() -> (r: Option<Self>) {
        Some(340282366920938463463374607431768211455)
    }

    fn prev(&self) -> (r: Option<Self>) {
        if *self == 0 {
            None
        } else {
            Some(*self - 1)
        }
    }

    fn succ(&self) -> (r: Option<Self>) {
        if *self == 340282366920938463463374607431768211455 {
            None
        } else {
            Some(*self + 1)
        }
    }

    fn count_from(&self) -> (r: Option<usize>) {
        let d = 340282366920938463463374607431768211455u128 - *self;
        if d < (usize::MAX as u128) {
            Some((d as usize) + 1)
        } else {
            None
        }
    }

    fn values_from(&self) -> (r: Vec<Self>) {
        let base = *self;
        let d = 340282366920938463463374607431768211455u128 - base;
        let n = (d as usize) + 1;
        let mut out: Vec<u128> = Vec::new();
        let mut k: usize = 0;
        while k < n
            invariant
                base == *self,
                n == Self::spec_card() - self.spec_index(),
                k <= n,
                out@.len() == k,
                forall|j: int|
                    0 <= j < k ==> out@[j] == Self::value_at((self.spec_index() + j) as nat),
            decreases n - k,
        {
            out.push(base + (k as u128));
            k += 1;
        }
        out
    }
}

impl Enum for i128 {
    open spec fn spec_card() -> nat {
        (u128::MAX + 1) as nat
    }

    open spec fn wf(self) -> bool {
        true
    }

    open spec fn spec_index(self) -> nat {
        (self + 170141183460469231731687303715884105728) as nat
    }

    open spec fn value_at(i: nat) -> i128 {
        (i - 170141183460469231731687303715884105728) as i128
    }

    proof fn lemma_index_bijective(self) {
    }

    proof fn lemma_value_at_wf(i: nat) {
    }

    fn card() -> (r: Option<usize>) {
        None
    }

    fn own(&self) -> (r: Self) {
        *self
    }

    fn to_index(&self) -> (r: Option<usize>) {
        if *self < 0 {
            let v = (*self + 170141183460469231731687303715884105727i128) + 1;
            if v <= (usize::MAX as i128) {
                Some(v as usize)
            } else {
                None
            }
        } else {
            None
        }
    }

    fn from_index(i: usize) -> (r: Option<Self>) {
        Some(((i as i128) - 170141183460469231731687303715884105727i128) - 1)
    }

    fn first() -> (r: Option<Self>) {
        Some(i128::MIN)
    }

    fn last() -> (r: Option<Self>) {
        Some(170141183460469231731687303715884105727)
    }

    fn prev(&self) -> (r: Option<Self>) {
        if *self == i128::MIN {
            None
        } else {
            Some(*self - 1)
        }
    }

    fn succ(&self) -> (r: Option<Self>) {
        if *self == 170141183460469231731687303715884105727 {
            None
        } else {
            Some(*self + 1)
        }
    }

    fn count_from(&self) -> (r: Option<usize>) {
        if *self < 0 {
            None
        } else {
            let d = 170141183460469231731687303715884105727i128 - *self;
            if d < (usize::MAX as i128) {
                Some((d as usize) + 1)
            } else {
                None
            }
        }
    }

    fn values_from(&self) -> (r: Vec<Self>) {
        let base = *self;
        let d = 170141183460469231731687303715884105727i128 - base;
        let n = (d as usize) + 1;
        let mut out: Vec<i128> = Vec::new();
        let mut k: usize = 0;
        while k < n
            invariant
                base == *self,
                n == Self::spec_card() - self.spec_index(),
                k <= n,
                out@.len() == k,
                forall|j: int|
                    0 <= j < k ==> out@[j] == Self::value_at((self.spec_index() + j) as nat),
            decreases n - k,
        {
            out.push(base + (k as i128));
            k += 1;
        }
        out
    }
}

} // verus!
