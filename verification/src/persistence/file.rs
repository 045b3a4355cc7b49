//! Where snapshots are kept on disk: one directory per configuration file,
//! named by the SHA-256 digest of the configuration's resolved path, below a
//! versioned directory of the data directory.
use vstd::prelude::*;
use sha2::Digest;
use vstd::string::StringSliceAdditionalSpecFns;
use crate::config::CanonicalConfigPath;
use crate::text::{push_char, push_str};

verus! {

/// The SHA-256 digest of a byte sequence.
pub uninterp spec fn spec_sha256(data: Seq<u8>) -> Seq<u8>;

/// Calls `sha2::Sha256::digest`; the digest is named `spec_sha256` of the
/// input and, as the digest's type `GenericArray<u8, U32>` shows, is 32 bytes long.
#[verifier::external_body]
fn sha256_digest(data: &[u8]) -> (r: Vec<u8>)
    ensures
        r@ == spec_sha256(data@),
        r@.len() == 32,
{
    sha2::Sha256::digest(data).to_vec()
}

/// The lower-case hexadecimal digit for a value below 16.
pub open spec fn hex_digit(value: int) -> char {
    if value < 10 {
        (value + 48) as char
    } else {
        (value + 87) as char
    }
}

/// The bytes in lower-case hexadecimal, two digits per byte.
pub open spec fn lower_hex(data: Seq<u8>) -> Seq<char>
    decreases data.len(),
{
    if data.len() == 0 {
        seq![]
    } else {
        lower_hex(data.drop_last()) + seq![
            hex_digit((data.last() / 16) as int),
            hex_digit((data.last() % 16) as int),
        ]
    }
}

/// The digit character for a value below 16.
fn hex_digit_char(value: u8) -> (r: char)
    requires
        value < 16,
    ensures
        r == hex_digit(value as int),
{
    if value < 10 {
        (value + 48) as char
    } else {
        (value + 87) as char
    }
}

/// The name of the directory that holds the snapshots of a configuration:
/// the SHA-256 digest of the path's UTF-8 bytes in lower-case hexadecimal.
pub open spec fn namespace_for(config_path: Seq<char>) -> Seq<char> {
    lower_hex(spec_sha256(vstd::utf8::encode_utf8(config_path)))
}

/// The name of the directory that holds the snapshots of a configuration.
pub fn namespace_name(config_path: &str) -> (r: String)
    ensures
        r@ == namespace_for(config_path@),
        r@.len() == 64,
{
    let digest = sha256_digest(config_path.as_bytes());
    let mut out = String::new();
    let mut i: usize = 0;
    while i < digest.len()
        invariant
            i <= digest@.len(),
            digest@ == spec_sha256(vstd::utf8::encode_utf8(config_path@)),
            out@ == lower_hex(digest@.take(i as int)),
            out@.len() == 2 * i,
        decreases digest.len() - i,
    {
        let byte = digest[i];
        push_char(&mut out, hex_digit_char(byte / 16));
        push_char(&mut out, hex_digit_char(byte % 16));
        assert(digest@.take(i + 1).drop_last() =~= digest@.take(i as int));
        assert(out@ =~= lower_hex(digest@.take(i + 1)));
        i += 1;
    }
    assert(digest@.take(digest@.len() as int) =~= digest@);
    out
}

/// The snapshots of one configuration, kept in a directory of their own
/// below the data directory.
pub struct FileSnapshotStore {
    namespace: String,
    data_directory: std::path::PathBuf,
    directory_components: Vec<String>,
}

/// The version of the layout in which snapshots are stored.
pub open spec fn storage_version() -> Seq<char> {
    "v1"@
}

/// Where below the data directory the snapshots of the configuration at
/// `config_path` are kept: `snapshots`, then the storage version, then the
/// configuration's namespace.
pub open spec fn store_directory_components(config_path: Seq<char>) -> Seq<Seq<char>> {
    seq!["snapshots"@, storage_version(), namespace_for(config_path)]
}

/// Different values below 16 have different digits.
proof fn lemma_hex_digit_injective(a: int, b: int)
    requires
        0 <= a < 16,
        0 <= b < 16,
        hex_digit(a) == hex_digit(b),
    ensures
        a == b,
{
    assert(hex_digit(a) as int == if a < 10 { a + 48 } else { a + 87 });
    assert(hex_digit(b) as int == if b < 10 { b + 48 } else { b + 87 });
}

/// The hexadecimal text has two digits per byte.
proof fn lemma_lower_hex_len(data: Seq<u8>)
    ensures
        lower_hex(data).len() == 2 * data.len(),
    decreases data.len(),
{
    if data.len() > 0 {
        lemma_lower_hex_len(data.drop_last());
    }
}

/// Different byte sequences have different hexadecimal texts.
pub proof fn lemma_lower_hex_injective(first: Seq<u8>, second: Seq<u8>)
    ensures
        lower_hex(first) == lower_hex(second) <==> first == second,
    decreases first.len(),
{
    if lower_hex(first) == lower_hex(second) {
        lemma_lower_hex_len(first);
        lemma_lower_hex_len(second);
        if first.len() > 0 {
            let hex = lower_hex(first);
            let n = hex.len();
            assert(lower_hex(first.drop_last()) =~= hex.subrange(0, n - 2));
            assert(lower_hex(second.drop_last()) =~= hex.subrange(0, n - 2));
            lemma_lower_hex_injective(first.drop_last(), second.drop_last());
            let x = first.last();
            let y = second.last();
            assert(hex[n - 2] == hex_digit((x / 16) as int));
            assert(hex[n - 2] == hex_digit((y / 16) as int));
            assert(hex[n - 1] == hex_digit((x % 16) as int));
            assert(hex[n - 1] == hex_digit((y % 16) as int));
            lemma_hex_digit_injective((x / 16) as int, (y / 16) as int);
            lemma_hex_digit_injective((x % 16) as int, (y % 16) as int);
            assert(x == 16 * (x / 16) + x % 16);
            assert(y == 16 * (y / 16) + y % 16);
            assert(first =~= first.drop_last().push(x));
            assert(second =~= second.drop_last().push(y));
        } else {
            assert(first =~= second);
        }
    }
}

/// Two configurations share a store directory exactly when the SHA-256
/// digests of their paths' UTF-8 bytes are equal: the directory's name is the
/// digest, and different digests never give the same name.
pub proof fn lemma_store_directories_follow_digests(first: Seq<char>, second: Seq<char>)
    ensures
        store_directory_components(first) == store_directory_components(second)
            <==> spec_sha256(vstd::utf8::encode_utf8(first)) == spec_sha256(
            vstd::utf8::encode_utf8(second),
        ),
{
    lemma_lower_hex_injective(
        spec_sha256(vstd::utf8::encode_utf8(first)),
        spec_sha256(vstd::utf8::encode_utf8(second)),
    );
    if store_directory_components(first) == store_directory_components(second) {
        assert(store_directory_components(first)[2] == store_directory_components(second)[2]);
    }
}

impl FileSnapshotStore {
    /// The name of the directory that holds this configuration's snapshots.
    pub closed spec fn spec_namespace(&self) -> Seq<char> {
        self.namespace@
    }

    /// The data directory below which this store keeps its snapshots.
    pub closed spec fn spec_data_directory(&self) -> std::path::PathBuf {
        self.data_directory
    }

    /// The directories, one below the other starting at the data directory,
    /// that lead to this store's snapshots.
    pub closed spec fn spec_directory_components(&self) -> Seq<Seq<char>> {
        self.directory_components@.map_values(|component: String| component@)
    }

    /// The store of the configuration at `config_path`, below
    /// `data_directory`/snapshots/v1/ in a directory named by the digest of
    /// the configuration's path.
    pub fn new(data_directory: std::path::PathBuf, config_path: &CanonicalConfigPath) -> (r:
        FileSnapshotStore)
        ensures
            r.spec_namespace() == namespace_for(config_path@),
            r.spec_namespace().len() == 64,
            r.spec_data_directory() == data_directory,
            r.spec_directory_components() == store_directory_components(config_path@),
    {
        let namespace = namespace_name(config_path.as_str());
        let mut directory_components: Vec<String> = Vec::new();
        directory_components.push(owned("snapshots"));
        directory_components.push(owned("v1"));
        directory_components.push(owned(namespace.as_str()));
        let store = FileSnapshotStore { namespace, data_directory, directory_components };
        assert(store.spec_directory_components() =~= store_directory_components(config_path@));
        store
    }

    /// The name of the directory that holds this configuration's snapshots.
    pub fn namespace(&self) -> (r: &str)
        ensures
            r@ == self.spec_namespace(),
    {
        self.namespace.as_str()
    }

    /// The data directory below which this store keeps its snapshots.
    pub fn data_directory(&self) -> (r: &std::path::PathBuf)
        ensures
            *r == self.spec_data_directory(),
    {
        &self.data_directory
    }

    /// The directories, one below the other starting at the data directory,
    /// that lead to this store's snapshots: `snapshots`, `v1` and the namespace.
    pub fn directory_components(&self) -> (r: &Vec<String>)
        ensures
            r@.map_values(|component: String| component@) == self.spec_directory_components(),
    {
        &self.directory_components
    }
}

/// An owned copy of a text.
fn owned(text: &str) -> (r: String)
    ensures
        r@ == text@,
{
    let mut out = String::new();
    push_str(&mut out, text);
    out
}

} // verus!
