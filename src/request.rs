use vstd::prelude::*;

verus! {

/// Options of watch mode.
#[derive(Clone, Debug, PartialEq, Eq)]
pub struct WatchOptions {
    /// Keep the terminal as it is before each rebuild.
    pub no_clear_screen: bool,
}

/// What the user asked for: an entry file, where the bundle goes, and
/// whether to keep rebuilding on change.
#[derive(Clone, Debug)]
pub struct BundleRequest {
    pub entry_file: String,
    pub out_file: Option<String>,
    pub watch: Option<WatchOptions>,
}

impl BundleRequest {
    pub open spec fn is_watch(&self) -> bool {
        self.watch is Some
    }
}

/// `path` joined onto `base` the way a Unix path is joined: an absolute
/// `path` stands for itself, otherwise one `/` separates the two.
pub open spec fn joined_path(base: Seq<char>, path: Seq<char>) -> Seq<char> {
    if path.len() > 0 && path[0] == '/' {
        path
    } else if base.len() == 0 {
        path
    } else if base.last() == '/' {
        base + path
    } else {
        base + seq!['/'] + path
    }
}

/// The path at which the entry file is looked for: `entry` joined onto the
/// working directory `root`. Whether anything exists there is for the file
/// system to say.
pub fn entry_candidate(root: &str, entry: &str) -> (r: String)
    ensures
        r@ == joined_path(root@, entry@),
{
    let entry_len = entry.unicode_len();
    if entry_len > 0 && entry.get_char(0) == '/' {
        return String::from_str(entry);
    }
    let root_len = root.unicode_len();
    if root_len == 0 {
        return String::from_str(entry);
    }
    let mut out = String::from_str(root);
    if root.get_char(root_len - 1) != '/' {
        out.append("/");
        proof {
            reveal_strlit("/");
        }
    }
    out.append(entry);
    proof {
        assert(out@ =~= joined_path(root@, entry@));
    }
    out
}

} // verus!
