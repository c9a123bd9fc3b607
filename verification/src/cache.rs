//! The in-memory result cache and the public solve-and-serialize entry.
//!
//! The cache maps a packed RGB key to the rendered CSS string, write-once
//! per key, for as long as the caller keeps it alive. Its well-formedness
//! invariant ties every stored string to the unique string the solver
//! produces for that color, so a hit and a fresh solve can never disagree.

use crate::color::spec_chan_of_byte;
use crate::css::spec_css;
use crate::models::{spec_rgb_uint24, RGB};
use crate::oklab::spec_oklab;
use crate::solver::{solve, spec_solve};
use std::collections::HashMap;
use vstd::prelude::*;

verus! {

broadcast use vstd::std_specs::hash::group_hash_axioms;

/// The one string that solving and serializing a color yields.
pub open spec fn spec_filter_string(r: int, g: int, b: int) -> Seq<char> {
    spec_css(
        spec_solve(
            spec_oklab((spec_chan_of_byte(r), spec_chan_of_byte(g), spec_chan_of_byte(b))),
        ).0,
    )
}

/// The string owed to a packed 24-bit key.
pub open spec fn spec_cache_line(k: int) -> Seq<char> {
    spec_filter_string(k / 65536, (k / 256) % 256, k % 256)
}

/// Packing a triple and reading the bytes back are inverse to each other.
pub proof fn lemma_key_bytes(r: int, g: int, b: int)
    requires
        0 <= r < 256,
        0 <= g < 256,
        0 <= b < 256,
    ensures
        spec_rgb_uint24(r, g, b) / 65536 == r,
        (spec_rgb_uint24(r, g, b) / 256) % 256 == g,
        spec_rgb_uint24(r, g, b) % 256 == b,
{
    let k = spec_rgb_uint24(r, g, b);
    vstd::arithmetic::div_mod::lemma_fundamental_div_mod_converse(k, 65536, r, g * 256 + b);
    vstd::arithmetic::div_mod::lemma_fundamental_div_mod_converse(k, 256, r * 256 + g, b);
    vstd::arithmetic::div_mod::lemma_fundamental_div_mod_converse(r * 256 + g, 256, r, g);
}

/// Cache correctness: whatever a well-formed cache holds for a color is
/// exactly the string a fresh solve of that color would return, so a second
/// call for a previously solved color returns the identical string without
/// invoking the solver again.
pub proof fn lemma_cached_matches_solve(c: FilterCache, r: u8, g: u8, b: u8)
    requires
        c.wf(),
        c@.contains_key(spec_rgb_uint24(r as int, g as int, b as int) as u32),
    ensures
        c@[spec_rgb_uint24(r as int, g as int, b as int) as u32] == spec_filter_string(
            r as int,
            g as int,
            b as int,
        ),
{
    lemma_key_bytes(r as int, g as int, b as int);
}

/// In-memory cache of rendered filter strings, keyed by the packed RGB
/// triple. Lazily grown, no eviction; write-once per key.
pub struct FilterCache {
    map: HashMap<u32, String>,
}

impl View for FilterCache {
    type V = Map<u32, Seq<char>>;

    closed spec fn view(&self) -> Map<u32, Seq<char>> {
        self.map@.map_values(|s: String| s@)
    }
}

impl FilterCache {
    /// Every stored string is the one the solver owes its key.
    pub open spec fn wf(&self) -> bool {
        forall|k: u32| self@.contains_key(k) ==> #[trigger] self@[k] == spec_cache_line(k as int)
    }

    /// A fresh, empty cache.
    pub fn new() -> (c: Self)
        ensures
            c.wf(),
            c@ == Map::<u32, Seq<char>>::empty(),
    {
        let c = FilterCache { map: HashMap::new() };
        proof {
            assert(c@ =~= Map::<u32, Seq<char>>::empty());
        }
        c
    }

    /// How many distinct colors have been solved into this cache.
    pub fn len(&self) -> (n: usize)
        ensures
            n == self@.len(),
    {
        let n = self.map.len();
        proof {
            assert(self.map@.map_values(|s: String| s@).dom() =~= self.map@.dom());
        }
        n
    }
}

/// Generates the CSS filter string that turns black into the given color.
///
/// A previously solved color is answered from the cache unchanged; a new
/// color is solved once, stored, and returned. Either way the result is the
/// one string the solver owes this color.
pub fn css_filter(cache: &mut FilterCache, color: &RGB) -> (s: String)
    requires
        old(cache).wf(),
    ensures
        final(cache).wf(),
        s@ == spec_filter_string(color.r as int, color.g as int, color.b as int),
        ({
            let key = spec_rgb_uint24(color.r as int, color.g as int, color.b as int) as u32;
            &&& old(cache)@.contains_key(key) ==> (final(cache)@ == old(cache)@ && s@ == old(
                cache,
            )@[key])
            &&& !old(cache)@.contains_key(key) ==> final(cache)@ == old(cache)@.insert(key, s@)
            &&& final(cache)@.contains_key(key)
        }),
{
    let key: u32 = (color.r as u32) * 65536 + (color.g as u32) * 256 + (color.b as u32);
    proof {
        lemma_key_bytes(color.r as int, color.g as int, color.b as int);
    }
    let cached: Option<&String> = cache.map.get(&key);
    match cached {
        Some(hit) => {
            let s = hit.clone();
            proof {
                assert(cache@.contains_key(key));
                assert(s@ == cache@[key]);
            }
            s
        },
        None => {
            let target = crate::color::FilterColor::new(color.r, color.g, color.b);
            let result = solve(target);
            let s = result.css();
            let copy = s.clone();
            cache.map.insert(key, copy);
            proof {
                assert(cache@ =~= old(cache)@.insert(key, s@));
            }
            s
        },
    }
}

} // verus!
