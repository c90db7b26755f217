//! Single-word atomic storage for optional values.
//!
//! Every operation is one atomic instruction on one word.  The integer
//! options encode `None` as the maximum value of the integer type, so
//! `Some(MAX)` cannot be stored; `AtomicBoolOption` encodes `Option<bool>`
//! in one byte (0 = `Some(false)`, 1 = `Some(true)`, 2 = `None`).
//!
//! What a load returns depends on what other threads stored, so the
//! contracts here state the encodings exactly and leave loaded values free.

use vstd::prelude::*;
use std::sync::atomic::{AtomicI8, AtomicI16, AtomicI32, AtomicI64, AtomicIsize, AtomicU8, AtomicU16, AtomicU32, AtomicU64, AtomicUsize};
use std::sync::atomic::Ordering;

verus! {

/// The byte that stores an `Option<bool>`.
pub open spec fn bool_option_code(value: Option<bool>) -> u8 {
    match value {
        Some(false) => 0,
        Some(true) => 1,
        None => 2,
    }
}

/// The `Option<bool>` that a stored byte stands for.
pub open spec fn bool_option_value(code: u8) -> Option<bool> {
    if code == 0 {
        Some(false)
    } else if code == 1 {
        Some(true)
    } else {
        None
    }
}

/// `AtomicBoolOption::decode` undoes `AtomicBoolOption::encode` (whose
/// results are `bool_option_value` and `bool_option_code`): decoding an
/// encoded `Option<bool>` gives it back, and every byte from 2 up decodes
/// to `None`.
pub proof fn lemma_bool_option_roundtrip(value: Option<bool>)
    ensures
        bool_option_value(bool_option_code(value)) == value,
        bool_option_code(value) <= 2,
        forall|x: u8| x >= 2 ==> #[trigger] bool_option_value(x) == None::<bool>,
{
}

/// Lock-free atomic `Option<bool>` storage in a single `AtomicU8`.
#[derive(Debug)]
pub struct AtomicBoolOption(AtomicU8);

impl AtomicBoolOption {
    fn encode(value: Option<bool>) -> (r: u8)
        ensures
            r == bool_option_code(value),
    {
        match value {
            Some(false) => 0,
            Some(true) => 1,
            None => 2,
        }
    }

    fn decode(value: u8) -> (r: Option<bool>)
        ensures
            r == bool_option_value(value),
            value >= 2 ==> r is None,
    {
        match value {
            0 => Some(false),
            1 => Some(true),
            _ => None,
        }
    }

    pub fn new(value: Option<bool>) -> Self {
        Self(AtomicU8::new(Self::encode(value)))
    }

    pub fn load(&self, ordering: Ordering) -> Option<bool> {
        Self::decode(self.0.load(ordering))
    }

    pub fn store(&self, value: Option<bool>, ordering: Ordering) {
        self.0.store(Self::encode(value), ordering);
    }

    pub fn swap(&self, value: Option<bool>, ordering: Ordering) -> Option<bool> {
        Self::decode(self.0.swap(Self::encode(value), ordering))
    }
}

/// The word that stores an `Option<usize>`: `None` is `usize::MAX`.
pub open spec fn usize_option_code(value: Option<usize>) -> usize {
    match value {
        Some(v) => v,
        None => usize::MAX,
    }
}

/// The `Option<usize>` that a stored word stands for.
pub open spec fn usize_option_value(code: usize) -> Option<usize> {
    if code == usize::MAX {
        None
    } else {
        Some(code)
    }
}

/// Decoding an encoded `Option<usize>` gives it back, for every value but
/// `Some(usize::MAX)`, which is the sentinel.
pub proof fn lemma_usize_option_roundtrip(value: Option<usize>)
    requires
        value != Some(usize::MAX),
    ensures
        usize_option_value(usize_option_code(value)) == value,
{
}

/// Lock-free atomic `Option<usize>` storage, `None` encoded as `usize::MAX`.
#[derive(Debug)]
pub struct AtomicUsizeOption(AtomicUsize);

impl AtomicUsizeOption {
    fn encode(value: Option<usize>) -> (r: usize)
        ensures
            r == usize_option_code(value),
    {
        match value {
            Some(v) => v,
            None => usize::MAX,
        }
    }

    fn decode(value: usize) -> (r: Option<usize>)
        ensures
            r == usize_option_value(value),
    {
        if value == usize::MAX {
            None
        } else {
            Some(value)
        }
    }

    pub fn new(value: Option<usize>) -> Self
        requires
            value != Some(usize::MAX),
    {
        Self(AtomicUsize::new(Self::encode(value)))
    }

    pub fn load(&self, ordering: Ordering) -> (r: Option<usize>)
        ensures
            r != Some(usize::MAX),
    {
        Self::decode(self.0.load(ordering))
    }

    pub fn store(&self, value: Option<usize>, ordering: Ordering)
        requires
            value != Some(usize::MAX),
    {
        self.0.store(Self::encode(value), ordering);
    }

    pub fn swap(&self, value: Option<usize>, ordering: Ordering) -> (r: Option<usize>)
        requires
            value != Some(usize::MAX),
        ensures
            r != Some(usize::MAX),
    {
        Self::decode(self.0.swap(Self::encode(value), ordering))
    }

    /// Stores `new` if the current value is `current`; `Ok` holds the
    /// previous value on success, which is `current` as stored (the atomic
    /// exchange succeeds only when the stored word is `current`'s), `Err`
    /// the current value on failure.  Which of the two comes back depends
    /// on the other threads.
    pub fn compare_exchange(
        &self,
        current: Option<usize>,
        new: Option<usize>,
        success: Ordering,
        failure: Ordering,
    ) -> (r: Result<Option<usize>, Option<usize>>)
        requires
            new != Some(usize::MAX),
        ensures
            r matches Ok(v) ==> v == usize_option_value(usize_option_code(current)),
            r matches Ok(v) ==> v != Some(usize::MAX),
            r matches Err(v) ==> v != Some(usize::MAX),
    {
        let expected = Self::encode(current);
        match self.0.compare_exchange(expected, Self::encode(new), success, failure) {
            Ok(_) => Ok(Self::decode(expected)),
            Err(v) => Err(Self::decode(v)),
        }
    }
}

/// The word that stores an `Option<u64>`: `None` is `u64::MAX`.
pub open spec fn u64_option_code(value: Option<u64>) -> u64 {
    match value {
        Some(v) => v,
        None => u64::MAX,
    }
}

/// The `Option<u64>` that a stored word stands for.
pub open spec fn u64_option_value(code: u64) -> Option<u64> {
    if code == u64::MAX {
        None
    } else {
        Some(code)
    }
}

/// Decoding an encoded `Option<u64>` gives it back, for every value but
/// `Some(u64::MAX)`, which is the sentinel.
pub proof fn lemma_u64_option_roundtrip(value: Option<u64>)
    requires
        value != Some(u64::MAX),
    ensures
        u64_option_value(u64_option_code(value)) == value,
{
}

/// Lock-free atomic `Option<u64>` storage, `None` encoded as `u64::MAX`.
#[derive(Debug)]
pub struct AtomicU64Option(AtomicU64);

impl AtomicU64Option {
    fn encode(value: Option<u64>) -> (r: u64)
        ensures
            r == u64_option_code(value),
    {
        match value {
            Some(v) => v,
            None => u64::MAX,
        }
    }

    fn decode(value: u64) -> (r: Option<u64>)
        ensures
            r == u64_option_value(value),
    {
        if value == u64::MAX {
            None
        } else {
            Some(value)
        }
    }

    pub fn new(value: Option<u64>) -> Self
        requires
            value != Some(u64::MAX),
    {
        Self(AtomicU64::new(Self::encode(value)))
    }

    pub fn load(&self, ordering: Ordering) -> (r: Option<u64>)
        ensures
            r != Some(u64::MAX),
    {
        Self::decode(self.0.load(ordering))
    }

    pub fn store(&self, value: Option<u64>, ordering: Ordering)
        requires
            value != Some(u64::MAX),
    {
        self.0.store(Self::encode(value), ordering);
    }

    pub fn swap(&self, value: Option<u64>, ordering: Ordering) -> (r: Option<u64>)
        requires
            value != Some(u64::MAX),
        ensures
            r != Some(u64::MAX),
    {
        Self::decode(self.0.swap(Self::encode(value), ordering))
    }

    /// Stores `new` if the current value is `current`; `Ok` holds the
    /// previous value on success, which is `current` as stored (the atomic
    /// exchange succeeds only when the stored word is `current`'s), `Err`
    /// the current value on failure.  Which of the two comes back depends
    /// on the other threads.
    pub fn compare_exchange(
        &self,
        current: Option<u64>,
        new: Option<u64>,
        success: Ordering,
        failure: Ordering,
    ) -> (r: Result<Option<u64>, Option<u64>>)
        requires
            new != Some(u64::MAX),
        ensures
            r matches Ok(v) ==> v == u64_option_value(u64_option_code(current)),
            r matches Ok(v) ==> v != Some(u64::MAX),
            r matches Err(v) ==> v != Some(u64::MAX),
    {
        let expected = Self::encode(current);
        match self.0.compare_exchange(expected, Self::encode(new), success, failure) {
            Ok(_) => Ok(Self::decode(expected)),
            Err(v) => Err(Self::decode(v)),
        }
    }
}

/// The word that stores an `Option<u32>`: `None` is `u32::MAX`.
pub open spec fn u32_option_code(value: Option<u32>) -> u32 {
    match value {
        Some(v) => v,
        None => u32::MAX,
    }
}

/// The `Option<u32>` that a stored word stands for.
pub open spec fn u32_option_value(code: u32) -> Option<u32> {
    if code == u32::MAX {
        None
    } else {
        Some(code)
    }
}

/// Decoding an encoded `Option<u32>` gives it back, for every value but
/// `Some(u32::MAX)`, which is the sentinel.
pub proof fn lemma_u32_option_roundtrip(value: Option<u32>)
    requires
        value != Some(u32::MAX),
    ensures
        u32_option_value(u32_option_code(value)) == value,
{
}

/// Lock-free atomic `Option<u32>` storage, `None` encoded as `u32::MAX`.
#[derive(Debug)]
pub struct AtomicU32Option(AtomicU32);

impl AtomicU32Option {
    fn encode(value: Option<u32>) -> (r: u32)
        ensures
            r == u32_option_code(value),
    {
        match value {
            Some(v) => v,
            None => u32::MAX,
        }
    }

    fn decode(value: u32) -> (r: Option<u32>)
        ensures
            r == u32_option_value(value),
    {
        if value == u32::MAX {
            None
        } else {
            Some(value)
        }
    }

    pub fn new(value: Option<u32>) -> Self
        requires
            value != Some(u32::MAX),
    {
        Self(AtomicU32::new(Self::encode(value)))
    }

    pub fn load(&self, ordering: Ordering) -> (r: Option<u32>)
        ensures
            r != Some(u32::MAX),
    {
        Self::decode(self.0.load(ordering))
    }

    pub fn store(&self, value: Option<u32>, ordering: Ordering)
        requires
            value != Some(u32::MAX),
    {
        self.0.store(Self::encode(value), ordering);
    }

    pub fn swap(&self, value: Option<u32>, ordering: Ordering) -> (r: Option<u32>)
        requires
            value != Some(u32::MAX),
        ensures
            r != Some(u32::MAX),
    {
        Self::decode(self.0.swap(Self::encode(value), ordering))
    }

    /// Stores `new` if the current value is `current`; `Ok` holds the
    /// previous value on success, which is `current` as stored (the atomic
    /// exchange succeeds only when the stored word is `current`'s), `Err`
    /// the current value on failure.  Which of the two comes back depends
    /// on the other threads.
    pub fn compare_exchange(
        &self,
        current: Option<u32>,
        new: Option<u32>,
        success: Ordering,
        failure: Ordering,
    ) -> (r: Result<Option<u32>, Option<u32>>)
        requires
            new != Some(u32::MAX),
        ensures
            r matches Ok(v) ==> v == u32_option_value(u32_option_code(current)),
            r matches Ok(v) ==> v != Some(u32::MAX),
            r matches Err(v) ==> v != Some(u32::MAX),
    {
        let expected = Self::encode(current);
        match self.0.compare_exchange(expected, Self::encode(new), success, failure) {
            Ok(_) => Ok(Self::decode(expected)),
            Err(v) => Err(Self::decode(v)),
        }
    }
}

/// The word that stores an `Option<u16>`: `None` is `u16::MAX`.
pub open spec fn u16_option_code(value: Option<u16>) -> u16 {
    match value {
        Some(v) => v,
        None => u16::MAX,
    }
}

/// The `Option<u16>` that a stored word stands for.
pub open spec fn u16_option_value(code: u16) -> Option<u16> {
    if code == u16::MAX {
        None
    } else {
        Some(code)
    }
}

/// Decoding an encoded `Option<u16>` gives it back, for every value but
/// `Some(u16::MAX)`, which is the sentinel.
pub proof fn lemma_u16_option_roundtrip(value: Option<u16>)
    requires
        value != Some(u16::MAX),
    ensures
        u16_option_value(u16_option_code(value)) == value,
{
}

/// Lock-free atomic `Option<u16>` storage, `None` encoded as `u16::MAX`.
#[derive(Debug)]
pub struct AtomicU16Option(AtomicU16);

impl AtomicU16Option {
    fn encode(value: Option<u16>) -> (r: u16)
        ensures
            r == u16_option_code(value),
    {
        match value {
            Some(v) => v,
            None => u16::MAX,
        }
    }

    fn decode(value: u16) -> (r: Option<u16>)
        ensures
            r == u16_option_value(value),
    {
        if value == u16::MAX {
            None
        } else {
            Some(value)
        }
    }

    pub fn new(value: Option<u16>) -> Self
        requires
            value != Some(u16::MAX),
    {
        Self(AtomicU16::new(Self::encode(value)))
    }

    pub fn load(&self, ordering: Ordering) -> (r: Option<u16>)
        ensures
            r != Some(u16::MAX),
    {
        Self::decode(self.0.load(ordering))
    }

    pub fn store(&self, value: Option<u16>, ordering: Ordering)
        requires
            value != Some(u16::MAX),
    {
        self.0.store(Self::encode(value), ordering);
    }

    pub fn swap(&self, value: Option<u16>, ordering: Ordering) -> (r: Option<u16>)
        requires
            value != Some(u16::MAX),
        ensures
            r != Some(u16::MAX),
    {
        Self::decode(self.0.swap(Self::encode(value), ordering))
    }

    /// Stores `new` if the current value is `current`; `Ok` holds the
    /// previous value on success, which is `current` as stored (the atomic
    /// exchange succeeds only when the stored word is `current`'s), `Err`
    /// the current value on failure.  Which of the two comes back depends
    /// on the other threads.
    pub fn compare_exchange(
        &self,
        current: Option<u16>,
        new: Option<u16>,
        success: Ordering,
        failure: Ordering,
    ) -> (r: Result<Option<u16>, Option<u16>>)
        requires
            new != Some(u16::MAX),
        ensures
            r matches Ok(v) ==> v == u16_option_value(u16_option_code(current)),
            r matches Ok(v) ==> v != Some(u16::MAX),
            r matches Err(v) ==> v != Some(u16::MAX),
    {
        let expected = Self::encode(current);
        match self.0.compare_exchange(expected, Self::encode(new), success, failure) {
            Ok(_) => Ok(Self::decode(expected)),
            Err(v) => Err(Self::decode(v)),
        }
    }
}

/// The word that stores an `Option<u8>`: `None` is `u8::MAX`.
pub open spec fn u8_option_code(value: Option<u8>) -> u8 {
    match value {
        Some(v) => v,
        None => u8::MAX,
    }
}

/// The `Option<u8>` that a stored word stands for.
pub open spec fn u8_option_value(code: u8) -> Option<u8> {
    if code == u8::MAX {
        None
    } else {
        Some(code)
    }
}

/// Decoding an encoded `Option<u8>` gives it back, for every value but
/// `Some(u8::MAX)`, which is the sentinel.
pub proof fn lemma_u8_option_roundtrip(value: Option<u8>)
    requires
        value != Some(u8::MAX),
    ensures
        u8_option_value(u8_option_code(value)) == value,
{
}

/// Lock-free atomic `Option<u8>` storage, `None` encoded as `u8::MAX`.
#[derive(Debug)]
pub struct AtomicU8Option(AtomicU8);

impl AtomicU8Option {
    fn encode(value: Option<u8>) -> (r: u8)
        ensures
            r == u8_option_code(value),
    {
        match value {
            Some(v) => v,
            None => u8::MAX,
        }
    }

    fn decode(value: u8) -> (r: Option<u8>)
        ensures
            r == u8_option_value(value),
    {
        if value == u8::MAX {
            None
        } else {
            Some(value)
        }
    }

    pub fn new(value: Option<u8>) -> Self
        requires
            value != Some(u8::MAX),
    {
        Self(AtomicU8::new(Self::encode(value)))
    }

    pub fn load(&self, ordering: Ordering) -> (r: Option<u8>)
        ensures
            r != Some(u8::MAX),
    {
        Self::decode(self.0.load(ordering))
    }

    pub fn store(&self, value: Option<u8>, ordering: Ordering)
        requires
            value != Some(u8::MAX),
    {
        self.0.store(Self::encode(value), ordering);
    }

    pub fn swap(&self, value: Option<u8>, ordering: Ordering) -> (r: Option<u8>)
        requires
            value != Some(u8::MAX),
        ensures
            r != Some(u8::MAX),
    {
        Self::decode(self.0.swap(Self::encode(value), ordering))
    }

    /// Stores `new` if the current value is `current`; `Ok` holds the
    /// previous value on success, which is `current` as stored (the atomic
    /// exchange succeeds only when the stored word is `current`'s), `Err`
    /// the current value on failure.  Which of the two comes back depends
    /// on the other threads.
    pub fn compare_exchange(
        &self,
        current: Option<u8>,
        new: Option<u8>,
        success: Ordering,
        failure: Ordering,
    ) -> (r: Result<Option<u8>, Option<u8>>)
        requires
            new != Some(u8::MAX),
        ensures
            r matches Ok(v) ==> v == u8_option_value(u8_option_code(current)),
            r matches Ok(v) ==> v != Some(u8::MAX),
            r matches Err(v) ==> v != Some(u8::MAX),
    {
        let expected = Self::encode(current);
        match self.0.compare_exchange(expected, Self::encode(new), success, failure) {
            Ok(_) => Ok(Self::decode(expected)),
            Err(v) => Err(Self::decode(v)),
        }
    }
}

/// The word that stores an `Option<isize>`: `None` is `isize::MAX`.
pub open spec fn isize_option_code(value: Option<isize>) -> isize {
    match value {
        Some(v) => v,
        None => isize::MAX,
    }
}

/// The `Option<isize>` that a stored word stands for.
pub open spec fn isize_option_value(code: isize) -> Option<isize> {
    if code == isize::MAX {
        None
    } else {
        Some(code)
    }
}

/// Decoding an encoded `Option<isize>` gives it back, for every value but
/// `Some(isize::MAX)`, which is the sentinel.
pub proof fn lemma_isize_option_roundtrip(value: Option<isize>)
    requires
        value != Some(isize::MAX),
    ensures
        isize_option_value(isize_option_code(value)) == value,
{
}

/// Lock-free atomic `Option<isize>` storage, `None` encoded as `isize::MAX`.
#[derive(Debug)]
pub struct AtomicIsizeOption(AtomicIsize);

impl AtomicIsizeOption {
    fn encode(value: Option<isize>) -> (r: isize)
        ensures
            r == isize_option_code(value),
    {
        match value {
            Some(v) => v,
            None => isize::MAX,
        }
    }

    fn decode(value: isize) -> (r: Option<isize>)
        ensures
            r == isize_option_value(value),
    {
        if value == isize::MAX {
            None
        } else {
            Some(value)
        }
    }

    pub fn new(value: Option<isize>) -> Self
        requires
            value != Some(isize::MAX),
    {
        Self(AtomicIsize::new(Self::encode(value)))
    }

    pub fn load(&self, ordering: Ordering) -> (r: Option<isize>)
        ensures
            r != Some(isize::MAX),
    {
        Self::decode(self.0.load(ordering))
    }

    pub fn store(&self, value: Option<isize>, ordering: Ordering)
        requires
            value != Some(isize::MAX),
    {
        self.0.store(Self::encode(value), ordering);
    }

    pub fn swap(&self, value: Option<isize>, ordering: Ordering) -> (r: Option<isize>)
        requires
            value != Some(isize::MAX),
        ensures
            r != Some(isize::MAX),
    {
        Self::decode(self.0.swap(Self::encode(value), ordering))
    }

    /// Stores `new` if the current value is `current`; `Ok` holds the
    /// previous value on success, which is `current` as stored (the atomic
    /// exchange succeeds only when the stored word is `current`'s), `Err`
    /// the current value on failure.  Which of the two comes back depends
    /// on the other threads.
    pub fn compare_exchange(
        &self,
        current: Option<isize>,
        new: Option<isize>,
        success: Ordering,
        failure: Ordering,
    ) -> (r: Result<Option<isize>, Option<isize>>)
        requires
            new != Some(isize::MAX),
        ensures
            r matches Ok(v) ==> v == isize_option_value(isize_option_code(current)),
            r matches Ok(v) ==> v != Some(isize::MAX),
            r matches Err(v) ==> v != Some(isize::MAX),
    {
        let expected = Self::encode(current);
        match self.0.compare_exchange(expected, Self::encode(new), success, failure) {
            Ok(_) => Ok(Self::decode(expected)),
            Err(v) => Err(Self::decode(v)),
        }
    }
}

/// The word that stores an `Option<i64>`: `None` is `i64::MAX`.
pub open spec fn i64_option_code(value: Option<i64>) -> i64 {
    match value {
        Some(v) => v,
        None => i64::MAX,
    }
}

/// The `Option<i64>` that a stored word stands for.
pub open spec fn i64_option_value(code: i64) -> Option<i64> {
    if code == i64::MAX {
        None
    } else {
        Some(code)
    }
}

/// Decoding an encoded `Option<i64>` gives it back, for every value but
/// `Some(i64::MAX)`, which is the sentinel.
pub proof fn lemma_i64_option_roundtrip(value: Option<i64>)
    requires
        value != Some(i64::MAX),
    ensures
        i64_option_value(i64_option_code(value)) == value,
{
}

/// Lock-free atomic `Option<i64>` storage, `None` encoded as `i64::MAX`.
#[derive(Debug)]
pub struct AtomicI64Option(AtomicI64);

impl AtomicI64Option {
    fn encode(value: Option<i64>) -> (r: i64)
        ensures
            r == i64_option_code(value),
    {
        match value {
            Some(v) => v,
            None => i64::MAX,
        }
    }

    fn decode(value: i64) -> (r: Option<i64>)
        ensures
            r == i64_option_value(value),
    {
        if value == i64::MAX {
            None
        } else {
            Some(value)
        }
    }

    pub fn new(value: Option<i64>) -> Self
        requires
            value != Some(i64::MAX),
    {
        Self(AtomicI64::new(Self::encode(value)))
    }

    pub fn load(&self, ordering: Ordering) -> (r: Option<i64>)
        ensures
            r != Some(i64::MAX),
    {
        Self::decode(self.0.load(ordering))
    }

    pub fn store(&self, value: Option<i64>, ordering: Ordering)
        requires
            value != Some(i64::MAX),
    {
        self.0.store(Self::encode(value), ordering);
    }

    pub fn swap(&self, value: Option<i64>, ordering: Ordering) -> (r: Option<i64>)
        requires
            value != Some(i64::MAX),
        ensures
            r != Some(i64::MAX),
    {
        Self::decode(self.0.swap(Self::encode(value), ordering))
    }

    /// Stores `new` if the current value is `current`; `Ok` holds the
    /// previous value on success, which is `current` as stored (the atomic
    /// exchange succeeds only when the stored word is `current`'s), `Err`
    /// the current value on failure.  Which of the two comes back depends
    /// on the other threads.
    pub fn compare_exchange(
        &self,
        current: Option<i64>,
        new: Option<i64>,
        success: Ordering,
        failure: Ordering,
    ) -> (r: Result<Option<i64>, Option<i64>>)
        requires
            new != Some(i64::MAX),
        ensures
            r matches Ok(v) ==> v == i64_option_value(i64_option_code(current)),
            r matches Ok(v) ==> v != Some(i64::MAX),
            r matches Err(v) ==> v != Some(i64::MAX),
    {
        let expected = Self::encode(current);
        match self.0.compare_exchange(expected, Self::encode(new), success, failure) {
            Ok(_) => Ok(Self::decode(expected)),
            Err(v) => Err(Self::decode(v)),
        }
    }
}

/// The word that stores an `Option<i32>`: `None` is `i32::MAX`.
pub open spec fn i32_option_code(value: Option<i32>) -> i32 {
    match value {
        Some(v) => v,
        None => i32::MAX,
    }
}

/// The `Option<i32>` that a stored word stands for.
pub open spec fn i32_option_value(code: i32) -> Option<i32> {
    if code == i32::MAX {
        None
    } else {
        Some(code)
    }
}

/// Decoding an encoded `Option<i32>` gives it back, for every value but
/// `Some(i32::MAX)`, which is the sentinel.
pub proof fn lemma_i32_option_roundtrip(value: Option<i32>)
    requires
        value != Some(i32::MAX),
    ensures
        i32_option_value(i32_option_code(value)) == value,
{
}

/// Lock-free atomic `Option<i32>` storage, `None` encoded as `i32::MAX`.
#[derive(Debug)]
pub struct AtomicI32Option(AtomicI32);

impl AtomicI32Option {
    fn encode(value: Option<i32>) -> (r: i32)
        ensures
            r == i32_option_code(value),
    {
        match value {
            Some(v) => v,
            None => i32::MAX,
        }
    }

    fn decode(value: i32) -> (r: Option<i32>)
        ensures
            r == i32_option_value(value),
    {
        if value == i32::MAX {
            None
        } else {
            Some(value)
        }
    }

    pub fn new(value: Option<i32>) -> Self
        requires
            value != Some(i32::MAX),
    {
        Self(AtomicI32::new(Self::encode(value)))
    }

    pub fn load(&self, ordering: Ordering) -> (r: Option<i32>)
        ensures
            r != Some(i32::MAX),
    {
        Self::decode(self.0.load(ordering))
    }

    pub fn store(&self, value: Option<i32>, ordering: Ordering)
        requires
            value != Some(i32::MAX),
    {
        self.0.store(Self::encode(value), ordering);
    }

    pub fn swap(&self, value: Option<i32>, ordering: Ordering) -> (r: Option<i32>)
        requires
            value != Some(i32::MAX),
        ensures
            r != Some(i32::MAX),
    {
        Self::decode(self.0.swap(Self::encode(value), ordering))
    }

    /// Stores `new` if the current value is `current`; `Ok` holds the
    /// previous value on success, which is `current` as stored (the atomic
    /// exchange succeeds only when the stored word is `current`'s), `Err`
    /// the current value on failure.  Which of the two comes back depends
    /// on the other threads.
    pub fn compare_exchange(
        &self,
        current: Option<i32>,
        new: Option<i32>,
        success: Ordering,
        failure: Ordering,
    ) -> (r: Result<Option<i32>, Option<i32>>)
        requires
            new != Some(i32::MAX),
        ensures
            r matches Ok(v) ==> v == i32_option_value(i32_option_code(current)),
            r matches Ok(v) ==> v != Some(i32::MAX),
            r matches Err(v) ==> v != Some(i32::MAX),
    {
        let expected = Self::encode(current);
        match self.0.compare_exchange(expected, Self::encode(new), success, failure) {
            Ok(_) => Ok(Self::decode(expected)),
            Err(v) => Err(Self::decode(v)),
        }
    }
}

/// The word that stores an `Option<i16>`: `None` is `i16::MAX`.
pub open spec fn i16_option_code(value: Option<i16>) -> i16 {
    match value {
        Some(v) => v,
        None => i16::MAX,
    }
}

/// The `Option<i16>` that a stored word stands for.
pub open spec fn i16_option_value(code: i16) -> Option<i16> {
    if code == i16::MAX {
        None
    } else {
        Some(code)
    }
}

/// Decoding an encoded `Option<i16>` gives it back, for every value but
/// `Some(i16::MAX)`, which is the sentinel.
pub proof fn lemma_i16_option_roundtrip(value: Option<i16>)
    requires
        value != Some(i16::MAX),
    ensures
        i16_option_value(i16_option_code(value)) == value,
{
}

/// Lock-free atomic `Option<i16>` storage, `None` encoded as `i16::MAX`.
#[derive(Debug)]
pub struct AtomicI16Option(AtomicI16);

impl AtomicI16Option {
    fn encode(value: Option<i16>) -> (r: i16)
        ensures
            r == i16_option_code(value),
    {
        match value {
            Some(v) => v,
            None => i16::MAX,
        }
    }

    fn decode(value: i16) -> (r: Option<i16>)
        ensures
            r == i16_option_value(value),
    {
        if value == i16::MAX {
            None
        } else {
            Some(value)
        }
    }

    pub fn new(value: Option<i16>) -> Self
        requires
            value != Some(i16::MAX),
    {
        Self(AtomicI16::new(Self::encode(value)))
    }

    pub fn load(&self, ordering: Ordering) -> (r: Option<i16>)
        ensures
            r != Some(i16::MAX),
    {
        Self::decode(self.0.load(ordering))
    }

    pub fn store(&self, value: Option<i16>, ordering: Ordering)
        requires
            value != Some(i16::MAX),
    {
        self.0.store(Self::encode(value), ordering);
    }

    pub fn swap(&self, value: Option<i16>, ordering: Ordering) -> (r: Option<i16>)
        requires
            value != Some(i16::MAX),
        ensures
            r != Some(i16::MAX),
    {
        Self::decode(self.0.swap(Self::encode(value), ordering))
    }

    /// Stores `new` if the current value is `current`; `Ok` holds the
    /// previous value on success, which is `current` as stored (the atomic
    /// exchange succeeds only when the stored word is `current`'s), `Err`
    /// the current value on failure.  Which of the two comes back depends
    /// on the other threads.
    pub fn compare_exchange(
        &self,
        current: Option<i16>,
        new: Option<i16>,
        success: Ordering,
        failure: Ordering,
    ) -> (r: Result<Option<i16>, Option<i16>>)
        requires
            new != Some(i16::MAX),
        ensures
            r matches Ok(v) ==> v == i16_option_value(i16_option_code(current)),
            r matches Ok(v) ==> v != Some(i16::MAX),
            r matches Err(v) ==> v != Some(i16::MAX),
    {
        let expected = Self::encode(current);
        match self.0.compare_exchange(expected, Self::encode(new), success, failure) {
            Ok(_) => Ok(Self::decode(expected)),
            Err(v) => Err(Self::decode(v)),
        }
    }
}

/// The word that stores an `Option<i8>`: `None` is `i8::MAX`.
pub open spec fn i8_option_code(value: Option<i8>) -> i8 {
    match value {
        Some(v) => v,
        None => i8::MAX,
    }
}

/// The `Option<i8>` that a stored word stands for.
pub open spec fn i8_option_value(code: i8) -> Option<i8> {
    if code == i8::MAX {
        None
    } else {
        Some(code)
    }
}

/// Decoding an encoded `Option<i8>` gives it back, for every value but
/// `Some(i8::MAX)`, which is the sentinel.
pub proof fn lemma_i8_option_roundtrip(value: Option<i8>)
    requires
        value != Some(i8::MAX),
    ensures
        i8_option_value(i8_option_code(value)) == value,
{
}

/// Lock-free atomic `Option<i8>` storage, `None` encoded as `i8::MAX`.
#[derive(Debug)]
pub struct AtomicI8Option(AtomicI8);

impl AtomicI8Option {
    fn encode(value: Option<i8>) -> (r: i8)
        ensures
            r == i8_option_code(value),
    {
        match value {
            Some(v) => v,
            None => i8::MAX,
        }
    }

    fn decode(value: i8) -> (r: Option<i8>)
        ensures
            r == i8_option_value(value),
    {
        if value == i8::MAX {
            None
        } else {
            Some(value)
        }
    }

    pub fn new(value: Option<i8>) -> Self
        requires
            value != Some(i8::MAX),
    {
        Self(AtomicI8::new(Self::encode(value)))
    }

    pub fn load(&self, ordering: Ordering) -> (r: Option<i8>)
        ensures
            r != Some(i8::MAX),
    {
        Self::decode(self.0.load(ordering))
    }

    pub fn store(&self, value: Option<i8>, ordering: Ordering)
        requires
            value != Some(i8::MAX),
    {
        self.0.store(Self::encode(value), ordering);
    }

    pub fn swap(&self, value: Option<i8>, ordering: Ordering) -> (r: Option<i8>)
        requires
            value != Some(i8::MAX),
        ensures
            r != Some(i8::MAX),
    {
        Self::decode(self.0.swap(Self::encode(value), ordering))
    }

    /// Stores `new` if the current value is `current`; `Ok` holds the
    /// previous value on success, which is `current` as stored (the atomic
    /// exchange succeeds only when the stored word is `current`'s), `Err`
    /// the current value on failure.  Which of the two comes back depends
    /// on the other threads.
    pub fn compare_exchange(
        &self,
        current: Option<i8>,
        new: Option<i8>,
        success: Ordering,
        failure: Ordering,
    ) -> (r: Result<Option<i8>, Option<i8>>)
        requires
            new != Some(i8::MAX),
        ensures
            r matches Ok(v) ==> v == i8_option_value(i8_option_code(current)),
            r matches Ok(v) ==> v != Some(i8::MAX),
            r matches Err(v) ==> v != Some(i8::MAX),
    {
        let expected = Self::encode(current);
        match self.0.compare_exchange(expected, Self::encode(new), success, failure) {
            Ok(_) => Ok(Self::decode(expected)),
            Err(v) => Err(Self::decode(v)),
        }
    }
}

} // verus!
