//! Where the configuration lives: paths under the user's home directory.

use vstd::prelude::*;

verus! {

/// The user's home directory, as `dirs_next` finds it.
#[derive(Debug)]
pub enum HomeDir {
    /// No home directory could be found.
    Missing,
    /// The home directory's path is not valid UTF-8.
    NotUtf8,
    /// The home directory.
    Found(String),
}

/// Looks the home directory up with `dirs_next::home_dir`.
///
/// Nothing is claimed of the result: it depends on the environment.
#[verifier::external_body]
pub(crate) fn home_dir() -> HomeDir {
    match dirs_next::home_dir() {
        None => HomeDir::Missing,
        Some(path) => match path.into_os_string().into_string() {
            Ok(text) => HomeDir::Found(text),
            Err(_) => HomeDir::NotUtf8,
        },
    }
}

/// `path` with the relative component `component` appended: a `/` goes in
/// between unless `path` is empty or already ends with one (what
/// `PathBuf::push` does on Unix with a relative component).
pub open spec fn pushed(path: Seq<char>, component: Seq<char>) -> Seq<char> {
    if path.len() == 0 || path.last() == '/' {
        path + component
    } else {
        path + seq!['/'] + component
    }
}

/// Appending a component keeps the path in front: `path` is a prefix of the result.
pub proof fn pushed_extends(path: Seq<char>, component: Seq<char>)
    ensures
        path.is_prefix_of(pushed(path, component)),
        pushed(path, component).len() >= path.len() + component.len(),
{
    assert(path =~= pushed(path, component).subrange(0, path.len() as int));
}

/// Appends the relative component `component` to `path`.
pub fn push_component(path: &mut String, component: &str)
    ensures
        final(path)@ == pushed(old(path)@, component@),
{
    let n = path.as_str().unicode_len();
    if n > 0 && path.as_str().get_char(n - 1) != '/' {
        path.append("/");
        proof {
            reveal_strlit("/");
        }
    }
    path.append(component);
}

} // verus!
