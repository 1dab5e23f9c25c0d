use vstd::prelude::*;

verus! {

/// The integer fields of a [`PixelateCacheKey`], as a value that contracts can speak of.
pub struct KeyFields {
    pub x: i32,
    pub y: i32,
    pub width: i32,
    pub height: i32,
    pub pixel_size: i32,
}

/// The region of the background that a blur annotation pixelates, clipped to the
/// background, together with the size of its pixel blocks.
///
/// Built only by [`pixelate_key`]; its width, height and block size are at least one.
#[derive(Clone, Copy, Debug, PartialEq, Eq, Hash, Structural)]
pub struct PixelateCacheKey {
    x: i32,
    y: i32,
    width: i32,
    height: i32,
    pixel_size: i32,
}

impl View for PixelateCacheKey {
    type V = KeyFields;

    closed spec fn view(&self) -> KeyFields {
        KeyFields {
            x: self.x,
            y: self.y,
            width: self.width,
            height: self.height,
            pixel_size: self.pixel_size,
        }
    }
}

/// Whether `n` is `len / pixel_size` rounded to the nearest integer, halves up.
pub open spec fn rounds_to(len: int, pixel_size: int, n: int) -> bool {
    2 * pixel_size * n - pixel_size <= 2 * len < 2 * pixel_size * n + pixel_size
}

/// Whether `side` is a side of the shrunken copy that turns `len` pixels into
/// blocks of `pixel_size`: `len / pixel_size` rounded to the nearest integer,
/// halves up, and at least one.
pub open spec fn is_downscaled_extent(len: int, pixel_size: int, side: int) -> bool {
    if 2 * len < pixel_size {
        side == 1
    } else {
        rounds_to(len, pixel_size, side)
    }
}

impl PixelateCacheKey {
    #[verifier::type_invariant]
    closed spec fn positive(self) -> bool {
        &&& self.width >= 1
        &&& self.height >= 1
        &&& self.pixel_size >= 1
    }

    pub fn x(&self) -> (r: i32)
        ensures
            r == self@.x,
    {
        self.x
    }

    pub fn y(&self) -> (r: i32)
        ensures
            r == self@.y,
    {
        self.y
    }

    pub fn width(&self) -> (r: i32)
        ensures
            r == self@.width,
            r >= 1,
    {
        proof {
            use_type_invariant(self);
        }
        self.width
    }

    pub fn height(&self) -> (r: i32)
        ensures
            r == self@.height,
            r >= 1,
    {
        proof {
            use_type_invariant(self);
        }
        self.height
    }

    pub fn pixel_size(&self) -> (r: i32)
        ensures
            r == self@.pixel_size,
            r >= 1,
    {
        proof {
            use_type_invariant(self);
        }
        self.pixel_size
    }

    /// The width and height of the shrunken copy of the region: each side divided by
    /// the block size, rounded to the nearest integer, and at least one.
    pub fn downscaled_size(&self) -> (r: (i32, i32))
        ensures
            is_downscaled_extent(self@.width as int, self@.pixel_size as int, r.0 as int),
            is_downscaled_extent(self@.height as int, self@.pixel_size as int, r.1 as int),
            1 <= r.0 <= self@.width,
            1 <= r.1 <= self@.height,
    {
        proof {
            use_type_invariant(self);
        }
        (downscale(self.width, self.pixel_size), downscale(self.height, self.pixel_size))
    }
}

/// One side of the shrunken copy.
fn downscale(len: i32, pixel_size: i32) -> (r: i32)
    requires
        len >= 1,
        pixel_size >= 1,
    ensures
        is_downscaled_extent(len as int, pixel_size as int, r as int),
        1 <= r <= len,
{
    let numerator: i64 = 2 * (len as i64) + pixel_size as i64;
    let denominator: i64 = 2 * (pixel_size as i64);
    let rounded: i64 = numerator / denominator;
    proof {
        lemma_rounded_quotient(len as int, pixel_size as int);
    }
    if rounded < 1 {
        1
    } else {
        rounded as i32
    }
}

proof fn lemma_rounded_quotient(len: int, pixel_size: int)
    requires
        len >= 1,
        pixel_size >= 1,
    ensures
        (2 * len + pixel_size) / (2 * pixel_size) <= len,
        (2 * len + pixel_size) / (2 * pixel_size) >= 0,
        rounds_to(len, pixel_size, (2 * len + pixel_size) / (2 * pixel_size)),
        ((2 * len + pixel_size) / (2 * pixel_size) < 1) == (2 * len < pixel_size),
{
    let a = 2 * len + pixel_size;
    let d = 2 * pixel_size;
    let q = a / d;
    vstd::arithmetic::div_mod::lemma_fundamental_div_mod(a, d);
    assert(0 <= a % d < d) by {
        vstd::arithmetic::div_mod::lemma_mod_bound(a, d);
    }
    assert(q <= len) by (nonlinear_arith)
        requires
            a == d * q + a % d,
            0 <= a % d,
            a == 2 * len + pixel_size,
            d == 2 * pixel_size,
            len >= 1,
            pixel_size >= 1,
    ;
    assert(q >= 0) by (nonlinear_arith)
        requires
            a == d * q + a % d,
            a % d < d,
            a > 0,
            d > 0,
    ;
    assert(d * q == 2 * pixel_size * q) by (nonlinear_arith)
        requires
            d == 2 * pixel_size,
    ;
    assert(q >= 1 ==> 2 * pixel_size * q >= 2 * pixel_size) by (nonlinear_arith)
        requires
            pixel_size >= 1,
    ;
    assert(rounds_to(len, pixel_size, q));
    if q < 1 {
        assert(q == 0);
        assert(2 * pixel_size * q == 0) by (nonlinear_arith)
            requires
                q == 0,
        ;
    } else {
        assert(2 * len >= 2 * pixel_size * q - pixel_size);
    }
}

/// The smaller of two integers.
pub open spec fn min_int(a: int, b: int) -> int {
    if a <= b {
        a
    } else {
        b
    }
}

/// The larger of two integers.
pub open spec fn max_int(a: int, b: int) -> int {
    if a >= b {
        a
    } else {
        b
    }
}

/// Whether a rounded region at `(x, y)` of size `width` by `height` leaves nothing
/// to pixelate on a background of the given size.
pub open spec fn region_is_empty(x: int, y: int, width: int, height: int, bg_width: int, bg_height: int) -> bool {
    x >= bg_width || y >= bg_height || width <= 0 || height <= 0
}

/// Clips a rounded blur region to the background and picks its block size.
///
/// `x`, `y`, `width` and `height` are the region already clamped and rounded to
/// whole pixels. The result is `None` when the region starts at or beyond the
/// background's right or bottom edge or has no area; otherwise the region keeps
/// its origin, each side is cut to what fits before the background's edge and
/// kept at least one pixel, and the block size is kept at least one.
pub fn pixelate_key(
    x: i32,
    y: i32,
    width: i32,
    height: i32,
    bg_width: i32,
    bg_height: i32,
    pixel_size: i32,
) -> (r: Option<PixelateCacheKey>)
    ensures
        r is None <==> region_is_empty(x as int, y as int, width as int, height as int, bg_width as int, bg_height as int),
        r matches Some(key) ==> {
            &&& key@.x == x
            &&& key@.y == y
            &&& key@.width == max_int(1, min_int(width as int, bg_width - x))
            &&& key@.height == max_int(1, min_int(height as int, bg_height - y))
            &&& key@.pixel_size == max_int(1, pixel_size as int)
        },
        r matches Some(key) ==> (x >= 0 ==> key@.x + key@.width <= bg_width),
        r matches Some(key) ==> (y >= 0 ==> key@.y + key@.height <= bg_height),
{
    if x >= bg_width || y >= bg_height || width <= 0 || height <= 0 {
        return None;
    }
    let room_x: i64 = bg_width as i64 - x as i64;
    let room_y: i64 = bg_height as i64 - y as i64;
    let clipped_width: i32 = if (width as i64) <= room_x {
        width
    } else {
        room_x as i32
    };
    let clipped_height: i32 = if (height as i64) <= room_y {
        height
    } else {
        room_y as i32
    };
    let block: i32 = if pixel_size >= 1 {
        pixel_size
    } else {
        1
    };
    Some(
        PixelateCacheKey {
            x,
            y,
            width: if clipped_width >= 1 {
                clipped_width
            } else {
                1
            },
            height: if clipped_height >= 1 {
                clipped_height
            } else {
                1
            },
            pixel_size: block,
        },
    )
}

/// The pixelated copies of blur regions that have been made, by region.
///
/// Each key occurs at most once.
pub struct PixelateCache<V> {
    entries: Vec<(PixelateCacheKey, V)>,
}

/// Whether no key occurs twice among the entries.
pub open spec fn keys_unique<V>(entries: Seq<(PixelateCacheKey, V)>) -> bool {
    forall|i: int, j: int|
        0 <= i < entries.len() && 0 <= j < entries.len() && i != j ==> entries[i].0 != entries[j].0
}

/// The index of the entry for `key`, where there is one.
pub open spec fn entry_index<V>(entries: Seq<(PixelateCacheKey, V)>, key: PixelateCacheKey) -> int {
    choose|i: int| 0 <= i < entries.len() && entries[i].0 == key
}

/// Whether some entry is for `key`.
pub open spec fn has_entry<V>(entries: Seq<(PixelateCacheKey, V)>, key: PixelateCacheKey) -> bool {
    exists|i: int| 0 <= i < entries.len() && entries[i].0 == key
}

impl<V> View for PixelateCache<V> {
    type V = Map<PixelateCacheKey, V>;

    closed spec fn view(&self) -> Map<PixelateCacheKey, V> {
        Map::new(
            |k: PixelateCacheKey| has_entry(self.entries@, k),
            |k: PixelateCacheKey| self.entries@[entry_index(self.entries@, k)].1,
        )
    }
}

/// The most copies a cache keeps before it starts over.
pub open spec fn cache_capacity() -> nat {
    64
}

impl<V> PixelateCache<V> {
    #[verifier::type_invariant]
    closed spec fn unique(self) -> bool {
        keys_unique(self.entries@)
    }

    /// How many copies the cache holds.
    pub closed spec fn count(&self) -> nat {
        self.entries@.len()
    }

    /// An empty cache.
    pub fn new() -> (r: Self)
        ensures
            r@ == Map::<PixelateCacheKey, V>::empty(),
            r.count() == 0,
    {
        let r = PixelateCache { entries: Vec::new() };
        assert(r@ =~= Map::<PixelateCacheKey, V>::empty());
        r
    }

    /// How many copies the cache holds.
    pub fn len(&self) -> (r: usize)
        ensures
            r == self.count(),
    {
        self.entries.len()
    }

    fn find(&self, key: &PixelateCacheKey) -> (r: Option<usize>)
        ensures
            match r {
                Some(i) => i < self.entries@.len() && self.entries@[i as int].0 == *key,
                None => !has_entry(self.entries@, *key),
            },
    {
        let n = self.entries.len();
        let mut i: usize = 0;
        while i < n
            invariant
                n == self.entries@.len(),
                i <= n,
                forall|j: int| 0 <= j < i ==> self.entries@[j].0 != *key,
            decreases n - i,
        {
            if self.entries[i].0 == *key {
                return Some(i);
            }
            i = i + 1;
        }
        None
    }

    /// The copy made for `key`, if there is one.
    pub fn get(&self, key: &PixelateCacheKey) -> (r: Option<&V>)
        ensures
            r is Some <==> self@.contains_key(*key),
            r matches Some(v) ==> *v == self@[*key],
    {
        proof {
            use_type_invariant(self);
        }
        match self.find(key) {
            Some(i) => {
                assert(has_entry(self.entries@, *key));
                let ghost j = entry_index(self.entries@, *key);
                assert(j == i as int);
                Some(&self.entries[i].1)
            },
            None => None,
        }
    }

    /// Keeps `value` as the copy for `key`, in place of any copy made for it before.
    pub fn insert(&mut self, key: PixelateCacheKey, value: V)
        ensures
            final(self)@ == old(self)@.insert(key, value),
            final(self).count() == old(self).count() + if old(self)@.contains_key(key) {
                0int
            } else {
                1int
            },
    {
        proof {
            use_type_invariant(&*self);
        }
        let ghost before = self.entries@;
        // The entries are taken out of the cache while they change, so that no
        // mutable borrow of the field outlives a call that could unwind.
        match self.find(&key) {
            Some(i) => {
                let mut entries = Vec::new();
                std::mem::swap(&mut entries, &mut self.entries);
                entries.set(i, (key, value));
                let ghost after = entries@;
                assert(keys_unique(after));
                self.entries = entries;
                assert(has_entry(before, key));
                assert(self@ =~= old(self)@.insert(key, value)) by {
                    assert forall|k: PixelateCacheKey| #[trigger] has_entry(after, k) implies after[entry_index(after, k)].1 == old(self)@.insert(key, value)[k] by {
                        let a = entry_index(after, k);
                        if k == key {
                            assert(a == i as int);
                        } else {
                            assert(has_entry(before, k));
                            let b = entry_index(before, k);
                            assert(a == b);
                        }
                    }
                    assert forall|k: PixelateCacheKey| has_entry(after, k) <==> #[trigger] old(self)@.insert(key, value).contains_key(k) by {
                        assert(after[i as int].0 == key);
                        assert(old(self)@.contains_key(k) == has_entry(before, k));
                        if has_entry(after, k) {
                            let a = choose|a: int| 0 <= a < after.len() && after[a].0 == k;
                            if a != i as int {
                                assert(before[a].0 == k);
                            }
                        }
                        if k != key && has_entry(before, k) {
                            let b = choose|b: int| 0 <= b < before.len() && before[b].0 == k;
                            assert(after[b].0 == k);
                        }
                    }
                }
            },
            None => {
                let mut entries = Vec::new();
                std::mem::swap(&mut entries, &mut self.entries);
                entries.push((key, value));
                let ghost after = entries@;
                assert(keys_unique(after));
                self.entries = entries;
                assert(self@ =~= old(self)@.insert(key, value)) by {
                    assert forall|k: PixelateCacheKey| #[trigger] has_entry(after, k) implies after[entry_index(after, k)].1 == old(self)@.insert(key, value)[k] by {
                        let a = entry_index(after, k);
                        if k == key {
                            assert(a == before.len());
                        } else {
                            assert(has_entry(before, k)) by {
                                assert(before[a].0 == k);
                            }
                            let b = entry_index(before, k);
                            assert(after[b].0 == k);
                            assert(a == b);
                        }
                    }
                    assert forall|k: PixelateCacheKey| has_entry(after, k) <==> #[trigger] old(self)@.insert(key, value).contains_key(k) by {
                        assert(after[before.len() as int].0 == key);
                        assert(old(self)@.contains_key(k) == has_entry(before, k));
                        assert(after.len() == before.len() + 1);
                        assert(forall|b: int| 0 <= b < before.len() ==> after[b] == before[b]);
                        if has_entry(after, k) && k != key {
                            let a = choose|a: int| 0 <= a < after.len() && after[a].0 == k;
                            assert(a != before.len());
                            assert(before[a].0 == k);
                            assert(has_entry(before, k));
                        }
                        if k == key {
                            assert(after[before.len() as int].0 == k);
                        }
                        if k != key && has_entry(before, k) {
                            let b = choose|b: int| 0 <= b < before.len() && before[b].0 == k;
                            assert(after[b].0 == k);
                        }
                    }
                }
            },
        }
    }

    /// Drops every copy.
    pub fn clear(&mut self)
        ensures
            final(self)@ == Map::<PixelateCacheKey, V>::empty(),
            final(self).count() == 0,
    {
        self.entries = Vec::new();
        assert(self@ =~= Map::<PixelateCacheKey, V>::empty());
    }

    /// Keeps a newly made copy: a cache that holds more than its capacity starts
    /// over first, so it never holds more than one copy beyond its capacity.
    pub fn store(&mut self, key: PixelateCacheKey, value: V)
        ensures
            old(self).count() > cache_capacity() ==> final(self)@ == Map::<PixelateCacheKey, V>::empty().insert(key, value),
            old(self).count() <= cache_capacity() ==> final(self)@ == old(self)@.insert(key, value),
            final(self).count() <= cache_capacity() + 1,
            final(self)@.contains_key(key),
            final(self)@[key] == value,
    {
        if self.len() > 64 {
            self.clear();
        }
        self.insert(key, value);
    }
}

} // verus!
