//! The layout of blobs on a filesystem, sharded by their hash.

use vstd::prelude::*;
use crate::data::blob::{BlobReference, ContentHash};

verus! {

/// The most breaks that a sharding can have.
pub const MAX_BREAKS: usize = 3;

/// The most parts that a hash is split into.
pub const MAX_SHARDS: usize = 4;

/// The name of the configuration file in the root of a store.
pub const CONFIG_NAME: &'static str = "cim_persistence.toml";

/// How a hash should be split to store on the filesystem.
///
/// A sharding has one to three breaks, each the length of one leading part.
#[derive(Debug)]
pub struct Sharding {
    breaks: [usize; 3],
}

/// Errors when parsing sharding configurations.
#[derive(Debug, Clone, Copy, PartialEq, Eq, Structural)]
pub enum ShardingError {
    /// Too many breaks in the configuration.
    TooLong,
    /// Zero-length breaks are not supported, nor a configuration without
    /// breaks.
    ZeroBreaks,
}

/// Whether `breaks` are the breaks of a sharding: one to three lengths, none
/// of them zero.
pub open spec fn valid_breaks(breaks: Seq<usize>) -> bool {
    &&& 1 <= breaks.len() <= 3
    &&& forall|i: int| 0 <= i < breaks.len() ==> breaks[i] > 0
}

/// The sum of the first `n` breaks.
pub open spec fn breaks_up_to(breaks: Seq<usize>, n: int) -> int
    decreases n,
{
    if n <= 0 || n > breaks.len() {
        0
    } else {
        breaks_up_to(breaks, n - 1) + breaks[n - 1]
    }
}

/// The part of `s` that the break `i` cuts off; for `i` the number of breaks,
/// what is left behind the last break.
pub open spec fn shard(breaks: Seq<usize>, s: Seq<char>, i: int) -> Seq<char> {
    if i < breaks.len() {
        s.subrange(breaks_up_to(breaks, i), breaks_up_to(breaks, i + 1))
    } else if i == breaks.len() {
        s.subrange(breaks_up_to(breaks, i), s.len() as int)
    } else {
        Seq::empty()
    }
}

/// The four parts that `s` is split into. A string that is shorter than all
/// the breaks together is not split: it is the first part, and the other
/// parts are empty. Parts beyond the last break's remainder are empty.
pub open spec fn shards(breaks: Seq<usize>, s: Seq<char>) -> Seq<Seq<char>> {
    if breaks_up_to(breaks, breaks.len() as int) > s.len() {
        seq![s, Seq::empty(), Seq::empty(), Seq::empty()]
    } else {
        seq![shard(breaks, s, 0), shard(breaks, s, 1), shard(breaks, s, 2), shard(breaks, s, 3)]
    }
}

/// The parts of a split string, one after the other, are the string; and a
/// string that is too short for the breaks is the first part.
pub proof fn lemma_shards_concat(breaks: Seq<usize>, s: Seq<char>)
    requires
        valid_breaks(breaks),
    ensures
        shards(breaks, s).len() == 4,
        shards(breaks, s)[0] + shards(breaks, s)[1] + shards(breaks, s)[2] + shards(breaks, s)[3]
            == s,
        breaks_up_to(breaks, breaks.len() as int) > s.len() ==> shards(breaks, s) == seq![
            s,
            Seq::<char>::empty(),
            Seq::<char>::empty(),
            Seq::<char>::empty(),
        ],
{
    let parts = shards(breaks, s);
    reveal_with_fuel(breaks_up_to, 5);
    assert(parts[0] + parts[1] + parts[2] + parts[3] =~= s);
}

impl Sharding {
    #[verifier::type_invariant]
    spec fn well_formed(self) -> bool {
        &&& self.breaks[0] > 0
        &&& self.breaks[1] == 0 ==> self.breaks[2] == 0
    }

    /// The breaks of the sharding, in order.
    pub closed spec fn spec_breaks(&self) -> Seq<usize> {
        if self.breaks[1] == 0 {
            seq![self.breaks[0]]
        } else if self.breaks[2] == 0 {
            seq![self.breaks[0], self.breaks[1]]
        } else {
            seq![self.breaks[0], self.breaks[1], self.breaks[2]]
        }
    }

    /// The breaks as they are kept: three lengths, zero for a break that is
    /// not there.
    pub open spec fn spec_slots(&self) -> Seq<usize> {
        Seq::new(
            3,
            |i: int|
                if i < self.spec_breaks().len() {
                    self.spec_breaks()[i]
                } else {
                    0usize
                },
        )
    }

    /// Split once with a given prefix length.
    pub fn once(first: usize) -> (r: Self)
        requires
            first > 0,
        ensures
            r.spec_breaks() == seq![first],
    {
        Sharding { breaks: [first, 0, 0] }
    }

    /// Split twice with the given prefix lengths.
    pub fn twice(first: usize, second: usize) -> (r: Self)
        requires
            first > 0,
            second > 0,
        ensures
            r.spec_breaks() == seq![first, second],
    {
        Sharding { breaks: [first, second, 0] }
    }

    /// Split thrice with the given prefix lengths.
    pub fn thrice(first: usize, second: usize, third: usize) -> (r: Self)
        requires
            first > 0,
            second > 0,
            third > 0,
        ensures
            r.spec_breaks() == seq![first, second, third],
    {
        Sharding { breaks: [first, second, third] }
    }

    /// The breaks as they are kept: three lengths, zero for a break that is
    /// not there.
    pub fn breaks(&self) -> (r: [usize; 3])
        ensures
            r@ == self.spec_slots(),
            valid_breaks(self.spec_breaks()),
    {
        proof {
            use_type_invariant(self);
        }
        let r = [self.breaks[0], self.breaks[1], self.breaks[2]];
        assert(r@ =~= self.spec_slots());
        r
    }

    /// Split a string at the breaks.
    pub fn shard_str<'a>(&self, s: &'a str) -> (r: [&'a str; 4])
        ensures
            valid_breaks(self.spec_breaks()),
            forall|i: int| 0 <= i < 4 ==> (#[trigger] r@[i])@ == shards(self.spec_breaks(), s@)[i],
    {
        proof {
            use_type_invariant(self);
            reveal_with_fuel(breaks_up_to, 5);
        }
        let len = s.unicode_len();
        let b0 = self.breaks[0];
        let b1 = self.breaks[1];
        let b2 = self.breaks[2];
        // The sum of the breaks, unless it is beyond every length.
        let sum = match b0.checked_add(b1) {
            Some(two) => two.checked_add(b2),
            None => None,
        };
        let fits = match sum {
            Some(total) => total <= len,
            None => false,
        };
        if !fits {
            let r = [s, "", "", ""];
            proof {
                reveal_strlit("");
                assert forall|i: int| 0 <= i < 4 implies (#[trigger] r@[i])@ == shards(
                    self.spec_breaks(),
                    s@,
                )[i] by {
                    assert(r@[i]@ =~= shards(self.spec_breaks(), s@)[i]);
                }
            }
            return r;
        }
        let first = s.substring_char(0, b0);
        if b1 == 0 {
            let r = [first, s.substring_char(b0, len), "", ""];
            proof {
                reveal_strlit("");
                assert forall|i: int| 0 <= i < 4 implies (#[trigger] r@[i])@ == shards(
                    self.spec_breaks(),
                    s@,
                )[i] by {
                    assert(r@[i]@ =~= shards(self.spec_breaks(), s@)[i]);
                }
            }
            return r;
        }
        let second = s.substring_char(b0, b0 + b1);
        if b2 == 0 {
            let r = [first, second, s.substring_char(b0 + b1, len), ""];
            proof {
                reveal_strlit("");
                assert forall|i: int| 0 <= i < 4 implies (#[trigger] r@[i])@ == shards(
                    self.spec_breaks(),
                    s@,
                )[i] by {
                    assert(r@[i]@ =~= shards(self.spec_breaks(), s@)[i]);
                }
            }
            return r;
        }
        let r = [
            first,
            second,
            s.substring_char(b0 + b1, b0 + b1 + b2),
            s.substring_char(b0 + b1 + b2, len),
        ];
        proof {
            assert forall|i: int| 0 <= i < 4 implies (#[trigger] r@[i])@ == shards(
                self.spec_breaks(),
                s@,
            )[i] by {
                assert(r@[i]@ =~= shards(self.spec_breaks(), s@)[i]);
            }
        }
        r
    }

    /// The breaks of the sharding, in order.
    pub fn to_vec(&self) -> (r: Vec<usize>)
        ensures
            r@ == self.spec_breaks(),
            valid_breaks(r@),
    {
        proof {
            use_type_invariant(self);
        }
        let mut r: Vec<usize> = Vec::new();
        r.push(self.breaks[0]);
        if self.breaks[1] > 0 {
            r.push(self.breaks[1]);
            if self.breaks[2] > 0 {
                r.push(self.breaks[2]);
            }
        }
        assert(r@ =~= self.spec_breaks());
        r
    }

    /// The sharding with the given breaks: more than three are too many, and
    /// a zero or no break at all is refused.
    pub fn from_slice(slice: &[usize]) -> (r: Result<Self, ShardingError>)
        ensures
            match r {
                Ok(sharding) => valid_breaks(slice@) && sharding.spec_breaks() == slice@,
                Err(ShardingError::TooLong) => slice@.len() > 3,
                Err(ShardingError::ZeroBreaks) => slice@.len() <= 3 && !valid_breaks(slice@),
            },
    {
        if slice.len() > MAX_BREAKS {
            return Err(ShardingError::TooLong);
        }
        if slice.len() == 0 {
            return Err(ShardingError::ZeroBreaks);
        }
        let mut breaks: [usize; 3] = [0, 0, 0];
        let mut i: usize = 0;
        while i < slice.len()
            invariant
                i <= slice@.len() <= 3,
                forall|j: int| 0 <= j < i ==> slice@[j] > 0 && breaks@[j] == slice@[j],
                forall|j: int| i <= j < 3 ==> breaks@[j] == 0,
            decreases slice.len() - i,
        {
            if slice[i] == 0 {
                return Err(ShardingError::ZeroBreaks);
            }
            breaks.set(i, slice[i]);
            i += 1;
        }
        let r = Sharding { breaks };
        assert(r.spec_breaks() =~= slice@);
        Ok(r)
    }
}

impl Default for Sharding {
    fn default() -> (r: Self)
        ensures
            r.spec_breaks() == seq![2usize, 2usize],
    {
        Sharding::twice(2, 2)
    }
}

/// The configuration of a filesystem store, as its configuration file holds
/// it.
#[derive(Debug)]
pub struct FilesystemConfig {
    /// The name of the hash algorithm.
    pub algorithm: String,
    /// The breaks of the sharding.
    pub sharding: Vec<usize>,
}

/// Errors which may occur when working with `Filesystem` blob persistence.
#[derive(Debug)]
pub enum FilesystemError {
    /// Invalid content hash algorithm found.
    InvalidContentAlgorithm {
        /// The algorithm requested.
        algo: String,
    },
    /// The sharding configuration is invalid.
    InvalidSharding {
        /// The source of the failure.
        source: ShardingError,
    },
}

/// A filesystem-backed blob persistence store.
#[derive(Debug)]
pub struct Filesystem {
    path: String,
    algo: ContentHash,
    sharding: Sharding,
}

/// The path of a blob below the root of a store: the name of the algorithm,
/// then every part of the split hash that is not empty.
pub open spec fn path_components(algo: ContentHash, breaks: Seq<usize>, hash: Seq<char>) -> Seq<
    Seq<char>,
> {
    let parts = shards(breaks, hash);
    let p0 = seq![algo.spec_name()];
    let p1 = if parts[0].len() > 0 {
        p0.push(parts[0])
    } else {
        p0
    };
    let p2 = if parts[1].len() > 0 {
        p1.push(parts[1])
    } else {
        p1
    };
    let p3 = if parts[2].len() > 0 {
        p2.push(parts[2])
    } else {
        p2
    };
    if parts[3].len() > 0 {
        p3.push(parts[3])
    } else {
        p3
    }
}

impl Filesystem {
    /// The root of the store.
    pub closed spec fn spec_root(&self) -> Seq<char> {
        self.path@
    }

    /// The algorithm of the store.
    pub closed spec fn spec_algo(&self) -> ContentHash {
        self.algo
    }

    /// The breaks of the store's sharding.
    pub closed spec fn spec_breaks(&self) -> Seq<usize> {
        self.sharding.spec_breaks()
    }

    /// Create a new filesystem store rooted at `path`.
    pub fn create(path: &str, algo: ContentHash, sharding: Sharding) -> (r: Self)
        ensures
            r.spec_root() == path@,
            r.spec_algo() == algo,
            r.spec_breaks() == sharding.spec_breaks(),
    {
        Filesystem { path: path.to_owned(), algo, sharding }
    }

    /// The configuration that describes the store.
    pub fn config(&self) -> (r: FilesystemConfig)
        ensures
            r.algorithm@ == self.spec_algo().spec_name(),
            r.sharding@ == self.spec_breaks(),
    {
        FilesystemConfig { algorithm: self.algo.name().to_owned(), sharding: self.sharding.to_vec() }
    }

    /// Open an existing filesystem store, rooted at `path`, that `conf`
    /// describes.
    pub fn open(path: &str, conf: FilesystemConfig) -> (r: Result<Self, FilesystemError>)
        ensures
            match r {
                Ok(fs) => fs.spec_root() == path@ && ContentHash::spec_from_name(conf.algorithm@)
                    == Some(fs.spec_algo()) && valid_breaks(conf.sharding@) && fs.spec_breaks()
                    == conf.sharding@,
                Err(FilesystemError::InvalidContentAlgorithm { algo }) => ContentHash::spec_from_name(
                    conf.algorithm@,
                ) is None && algo == conf.algorithm,
                Err(FilesystemError::InvalidSharding { source }) => ContentHash::spec_from_name(
                    conf.algorithm@,
                ) is Some && match source {
                    ShardingError::TooLong => conf.sharding@.len() > 3,
                    ShardingError::ZeroBreaks => conf.sharding@.len() <= 3 && !valid_breaks(
                        conf.sharding@,
                    ),
                },
            },
    {
        let algo = match ContentHash::from_name(conf.algorithm.as_str()) {
            Some(algo) => algo,
            None => {
                return Err(FilesystemError::InvalidContentAlgorithm { algo: conf.algorithm });
            },
        };
        let sharding = match Sharding::from_slice(conf.sharding.as_slice()) {
            Ok(sharding) => sharding,
            Err(source) => {
                return Err(FilesystemError::InvalidSharding { source });
            },
        };
        Ok(Filesystem { path: path.to_owned(), algo, sharding })
    }

    /// The root of the store.
    pub fn root(&self) -> (r: &str)
        ensures
            r@ == self.spec_root(),
    {
        self.path.as_str()
    }

    /// The algorithm of the store.
    pub fn algo(&self) -> (r: ContentHash)
        ensures
            r == self.spec_algo(),
    {
        self.algo
    }

    /// The path of a blob below the root of the store, one component after
    /// the other.
    pub fn path_for(&self, blob: &BlobReference) -> (r: Vec<String>)
        ensures
            r@.len() == path_components(blob@.algo, self.spec_breaks(), blob@.hash).len(),
            forall|i: int|
                0 <= i < r@.len() ==> (#[trigger] r@[i])@ == path_components(
                    blob@.algo,
                    self.spec_breaks(),
                    blob@.hash,
                )[i],
    {
        let split = self.shard_hash(blob.hash());
        let mut path: Vec<String> = Vec::new();
        path.push(blob.algo().name().to_owned());
        let mut i: usize = 0;
        let ghost parts = shards(self.spec_breaks(), blob@.hash);
        while i < 4
            invariant
                i <= 4,
                path@.len() >= 1,
                forall|j: int| 0 <= j < 4 ==> (#[trigger] split@[j])@ == parts[j],
                path@.len() == prefix_components(blob@.algo, parts, i as int).len(),
                forall|j: int|
                    0 <= j < path@.len() ==> (#[trigger] path@[j])@ == prefix_components(
                        blob@.algo,
                        parts,
                        i as int,
                    )[j],
            decreases 4 - i,
        {
            let part = split[i];
            if !part.is_empty() {
                path.push(part.to_owned());
            }
            i += 1;
        }
        proof {
            reveal_with_fuel(prefix_components, 5);
            assert(prefix_components(blob@.algo, parts, 4) =~= path_components(
                blob@.algo,
                self.spec_breaks(),
                blob@.hash,
            ));
        }
        path
    }

    /// Split a hash at the breaks of the store's sharding.
    pub fn shard_hash<'a>(&self, hash: &'a str) -> (r: [&'a str; 4])
        ensures
            forall|i: int| 0 <= i < 4 ==> (#[trigger] r@[i])@ == shards(self.spec_breaks(), hash@)[i],
    {
        self.sharding.shard_str(hash)
    }
}

/// The path's components after the first `n` parts were looked at.
pub open spec fn prefix_components(algo: ContentHash, parts: Seq<Seq<char>>, n: int) -> Seq<
    Seq<char>,
>
    decreases n,
{
    if n <= 0 {
        seq![algo.spec_name()]
    } else if parts[n - 1].len() > 0 {
        prefix_components(algo, parts, n - 1).push(parts[n - 1])
    } else {
        prefix_components(algo, parts, n - 1)
    }
}

} // verus!
