//! The dashboard's static file cache: an ordered list of unique paths,
//! normalized lookup, content hashing for ETags, and the built-in default
//! page. Embedding real files from disk happens outside; the cache logic
//! works on plain values.

use vstd::prelude::*;

verus! {

/// One cached static file.
pub struct StaticFile {
    pub content: Vec<u8>,
    pub mime_type: String,
    pub etag: String,
}

/// Totals over the cache.
pub struct StaticFileStats {
    pub total_files: usize,
    pub total_size: usize,
}

/// The in-memory static file cache: path-keyed, first match wins.
pub struct StaticFileHandler {
    pub files: Vec<(String, StaticFile)>,
}

/// The path a request resolves to: leading slashes are dropped, and the
/// empty path means the index page.
pub open spec fn spec_normalize_path(p: Seq<char>) -> Seq<char> {
    let trimmed = spec_trim_slashes(p);
    if trimmed.len() == 0 {
        "index.html"@
    } else {
        trimmed
    }
}

/// The path with every leading slash removed.
pub open spec fn spec_trim_slashes(p: Seq<char>) -> Seq<char>
    decreases p.len(),
{
    if p.len() > 0 && p[0] == '/' {
        spec_trim_slashes(p.drop_first())
    } else {
        p
    }
}

/// The index of the first cache entry under a path, if any.
pub open spec fn spec_find(files: Seq<(String, StaticFile)>, path: Seq<char>) -> Option<int>
    decreases files.len(),
{
    if files.len() == 0 {
        None
    } else if files[0].0@ == path {
        Some(0)
    } else {
        match spec_find(files.drop_first(), path) {
            Some(i) => Some(i + 1),
            None => None,
        }
    }
}

fn trim_slashes<'a>(p: &'a str) -> (r: &'a str)
    ensures
        r@ == spec_trim_slashes(p@),
    decreases p@.len(),
{
    let len = p.unicode_len();
    if len > 0 && p.get_char(0) == '/' {
        let rest = p.substring_char(1, len);
        proof {
            assert(rest@ =~= p@.drop_first());
        }
        trim_slashes(rest)
    } else {
        p
    }
}

impl StaticFileHandler {
    /// A handler loaded with the built-in default files.
    pub fn new() -> (r: Self)
        ensures
            r.files@.len() == 1,
            r.files@[0].0@ == "index.html"@,
    {
        StaticFileHandler { files: create_default_static_files() }
    }

    /// A handler over a given file list.
    pub fn from_files(files: Vec<(String, StaticFile)>) -> (r: Self)
        ensures
            r.files == files,
    {
        StaticFileHandler { files }
    }

    /// Looks a request path up: leading slashes are ignored and the empty
    /// path serves the index page.
    pub fn get_file(&self, path: &str) -> (r: Option<&StaticFile>)
        ensures
            ({
                match spec_find(self.files@, spec_normalize_path(path@)) {
                    Some(i) => r matches Some(f) && *f == self.files@[i].1,
                    None => r is None,
                }
            }),
    {
        let trimmed = trim_slashes(path);
        let key: &str = if trimmed.unicode_len() == 0 {
            "index.html"
        } else {
            trimmed
        };
        let mut i: usize = 0;
        proof {
            assert(self.files@.skip(0) =~= self.files@);
        }
        while i < self.files.len()
            invariant
                i <= self.files@.len(),
                key@ == spec_normalize_path(path@),
                spec_find(self.files@, key@) == match spec_find(
                    self.files@.skip(i as int),
                    key@,
                ) {
                    Some(j) => Some(j + i),
                    None => None::<int>,
                },
            decreases self.files@.len() - i,
        {
            let ghost rest = self.files@.skip(i as int);
            proof {
                assert(rest[0] == self.files@[i as int]);
                assert(rest.drop_first() =~= self.files@.skip(i + 1));
            }
            if crate::codec::str_eq(self.files[i].0.as_str(), key) {
                return Some(&self.files[i].1);
            }
            i = i + 1;
        }
        proof {
            assert(self.files@.skip(self.files@.len() as int) =~= Seq::<(
                String,
                StaticFile,
            )>::empty());
        }
        None
    }

    /// Whether a request path names a cached file.
    pub fn is_static_file(&self, path: &str) -> (r: bool)
        ensures
            r == (spec_find(self.files@, spec_normalize_path(path@)) is Some),
    {
        self.get_file(path).is_some()
    }

    /// Every cached path, in cache order.
    pub fn list_files(&self) -> (r: Vec<String>)
        ensures
            r@.len() == self.files@.len(),
            forall|i: int| 0 <= i < r@.len() ==> (#[trigger] r@[i])@ == self.files@[i].0@,
    {
        let mut out: Vec<String> = Vec::new();
        let mut i: usize = 0;
        while i < self.files.len()
            invariant
                i <= self.files@.len(),
                out@.len() == i,
                forall|j: int| 0 <= j < i ==> (#[trigger] out@[j])@ == self.files@[j].0@,
            decreases self.files@.len() - i,
        {
            let name = self.files[i].0.clone();
            out.push(name);
            i = i + 1;
        }
        out
    }

    /// File count and total content size.
    pub fn get_stats(&self) -> (r: StaticFileStats)
        ensures
            r.total_files == self.files@.len(),
    {
        let total_files = self.files.len();
        let mut total_size: usize = 0;
        let mut i: usize = 0;
        while i < self.files.len()
            invariant
                i <= self.files@.len(),
            decreases self.files@.len() - i,
        {
            total_size = total_size.saturating_add(self.files[i].1.content.len());
            i = i + 1;
        }
        StaticFileStats { total_files, total_size }
    }
}

/// The 64-bit FNV-1a hash of a byte string, used for ETags.
pub open spec fn spec_fnv1a(b: Seq<u8>) -> u64
    decreases b.len(),
{
    if b.len() == 0 {
        0xcbf29ce484222325u64
    } else {
        vstd::wrapping::u64_specs::wrapping_mul(
            spec_fnv1a(b.drop_last()) ^ (b.last() as u64),
            0x100000001b3,
        )
    }
}

/// The lower-case hex rendering of a value, without leading zeros.
pub open spec fn spec_hex(n: nat) -> Seq<u8>
    decreases n,
{
    if n < 16 {
        seq![crate::json::spec_hex_digit(n as u8)]
    } else {
        spec_hex(n / 16) + seq![crate::json::spec_hex_digit((n % 16) as u8)]
    }
}

/// Hashes content for an ETag: the FNV-1a hash in lower-case hex.
pub fn generate_etag(content: &Vec<u8>) -> (r: Vec<u8>)
    ensures
        r@ == spec_hex(spec_fnv1a(content@) as nat),
{
    let mut h: u64 = 0xcbf29ce484222325;
    let mut i: usize = 0;
    proof {
        assert(content@.take(0) =~= Seq::<u8>::empty());
    }
    while i < content.len()
        invariant
            i <= content@.len(),
            h == spec_fnv1a(content@.take(i as int)),
        decreases content@.len() - i,
    {
        let ghost pre1 = content@.take(i + 1);
        proof {
            assert(pre1.drop_last() =~= content@.take(i as int));
            assert(pre1.last() == content@[i as int]);
        }
        h = (h ^ (content[i] as u64)).wrapping_mul(0x100000001b3);
        i = i + 1;
    }
    proof {
        assert(content@.take(content@.len() as int) =~= content@);
    }
    hex_bytes(h)
}

fn hex_bytes(n: u64) -> (r: Vec<u8>)
    ensures
        r@ == spec_hex(n as nat),
{
    let mut out: Vec<u8> = Vec::new();
    push_hex(&mut out, n);
    proof {
        assert(out@ =~= Seq::<u8>::empty() + spec_hex(n as nat));
    }
    out
}

fn push_hex(out: &mut Vec<u8>, n: u64)
    ensures
        final(out)@ == old(out)@ + spec_hex(n as nat),
    decreases n,
{
    if n < 16 {
        let d = n as u8;
        out.push(if d < 10 { 0x30 + d } else { 0x57 + d });
        proof {
            assert(final(out)@ =~= old(out)@ + spec_hex(n as nat));
        }
    } else {
        push_hex(out, n / 16);
        let d = (n % 16) as u8;
        out.push(if d < 10 { 0x30 + d } else { 0x57 + d });
        proof {
            assert(final(out)@ =~= old(out)@ + spec_hex(n as nat));
        }
    }
}

/// The built-in default file set: a minimal index page.
pub fn create_default_static_files() -> (r: Vec<(String, StaticFile)>)
    ensures
        r@.len() == 1,
        r@[0].0@ == "index.html"@,
        r@[0].1.mime_type@ == "text/html"@,
        r@[0].1.content@.len() > 0,
{
    let page: &str = "<!DOCTYPE html><html><head><title>Tunnel Client Dashboard</title></head><body><h1>Tunnel Client Dashboard</h1><div id=\"status\">Connecting...</div></body></html>";
    proof {
        reveal_strlit(
            "<!DOCTYPE html><html><head><title>Tunnel Client Dashboard</title></head><body><h1>Tunnel Client Dashboard</h1><div id=\"status\">Connecting...</div></body></html>",
        );
        vstd::string::is_ascii_spec_bytes(page);
    }
    let content = page.as_bytes_vec();
    let file = StaticFile {
        content,
        mime_type: "text/html".to_owned(),
        etag: "\"default-index\"".to_owned(),
    };
    let mut out: Vec<(String, StaticFile)> = Vec::new();
    out.push(("index.html".to_owned(), file));
    out
}

} // verus!
