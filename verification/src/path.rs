use vstd::prelude::*;
use vstd::string::*;

verus! {

/// The name of the root directory as a path component.
pub open spec fn root_component() -> Seq<char> {
    seq!['/']
}

/// A path is absolute when its first component is the root directory.
pub open spec fn spec_is_absolute(path: Seq<Seq<char>>) -> bool {
    path.len() > 0 && path[0] == root_component()
}

/// `path` lies at or below `base`: the components of `base` are the leading
/// components of `path`.
pub open spec fn spec_starts_with(path: Seq<Seq<char>>, base: Seq<Seq<char>>) -> bool {
    base.len() <= path.len() && path.take(base.len() as int) == base
}

/// What is left of `path` once the leading components `base` are removed.
pub open spec fn spec_strip_prefix(path: Seq<Seq<char>>, base: Seq<Seq<char>>) -> Option<
    Seq<Seq<char>>,
> {
    if spec_starts_with(path, base) {
        Some(path.skip(base.len() as int))
    } else {
        None
    }
}

/// `rel` resolved against `base`: an absolute `rel` stands for itself, any
/// other is appended.
pub open spec fn spec_join(base: Seq<Seq<char>>, rel: Seq<Seq<char>>) -> Seq<Seq<char>> {
    if spec_is_absolute(rel) {
        rel
    } else {
        base + rel
    }
}

/// The directory that holds `path`. The empty path and a path that ends in
/// the root have none.
pub open spec fn spec_parent(path: Seq<Seq<char>>) -> Option<Seq<Seq<char>>> {
    if path.len() > 0 && path.last() != root_component() {
        Some(path.drop_last())
    } else {
        None
    }
}

/// The text of a path after one more component is appended to the text
/// `buf`: a component that begins with the separator replaces the text, any
/// other follows it, behind a separator where the text does not end in one.
pub open spec fn spec_push_text(buf: Seq<char>, component: Seq<char>) -> Seq<char> {
    if component.len() > 0 && component[0] == '/' {
        component
    } else if buf.len() > 0 && buf.last() != '/' {
        buf + seq!['/'] + component
    } else {
        buf + component
    }
}

/// The text of a path: its components appended one by one.
pub open spec fn spec_render(path: Seq<Seq<char>>) -> Seq<char>
    decreases path.len(),
{
    if path.len() == 0 {
        Seq::empty()
    } else {
        spec_push_text(spec_render(path.drop_last()), path.last())
    }
}

/// A path held as its components, the root directory counting as the
/// component `/`.
#[derive(Debug, PartialEq, Eq)]
pub struct FilePath {
    pub components: Vec<String>,
}

impl View for FilePath {
    type V = Seq<Seq<char>>;

    open spec fn view(&self) -> Seq<Seq<char>> {
        Seq::new(self.components@.len(), |i: int| self.components@[i]@)
    }
}

impl Clone for FilePath {
    fn clone(&self) -> (copy: Self)
        ensures
            copy@ == self@,
    {
        self.slice(0, self.components.len())
    }
}

impl FilePath {
    /// The path with the given components.
    pub fn new(components: Vec<String>) -> (path: Self)
        ensures
            path.components == components,
    {
        FilePath { components }
    }

    /// The number of components.
    pub fn len(&self) -> (n: usize)
        ensures
            n == self@.len(),
    {
        self.components.len()
    }

    /// Whether the path begins at the root directory.
    pub fn is_absolute(&self) -> (absolute: bool)
        ensures
            absolute == spec_is_absolute(self@),
    {
        if self.components.len() == 0 {
            false
        } else {
            is_root_component(self.components[0].as_str())
        }
    }

    /// Whether the path lies at or below `base`.
    pub fn starts_with(&self, base: &FilePath) -> (under: bool)
        ensures
            under == spec_starts_with(self@, base@),
    {
        if base.components.len() > self.components.len() {
            return false;
        }
        let mut i: usize = 0;
        while i < base.components.len()
            invariant
                i <= base.components.len() <= self.components.len(),
                forall|k: int| 0 <= k < i ==> self.components@[k]@ == base.components@[k]@,
            decreases base.components.len() - i,
        {
            if self.components[i] != base.components[i] {
                assert(self@[i as int] != base@[i as int]);
                return false;
            }
            i = i + 1;
        }
        assert(self@.take(base@.len() as int) =~= base@);
        true
    }

    /// The path relative to `base`, where the path lies at or below it.
    pub fn strip_prefix(&self, base: &FilePath) -> (rest: Option<FilePath>)
        ensures
            match rest {
                Some(rel) => spec_strip_prefix(self@, base@) == Some(rel@),
                None => spec_strip_prefix(self@, base@).is_none(),
            },
    {
        if !self.starts_with(base) {
            return None;
        }
        let rel = self.slice(base.components.len(), self.components.len());
        assert(self@.subrange(base@.len() as int, self@.len() as int) =~= self@.skip(
            base@.len() as int,
        ));
        Some(rel)
    }

    /// `rel` resolved against this path.
    pub fn join(&self, rel: &FilePath) -> (joined: FilePath)
        ensures
            joined@ == spec_join(self@, rel@),
    {
        if rel.is_absolute() {
            return rel.clone();
        }
        let mut joined = self.clone();
        let mut i: usize = 0;
        while i < rel.components.len()
            invariant
                i <= rel.components.len(),
                joined@ == self@ + rel@.take(i as int),
            decreases rel.components.len() - i,
        {
            joined.components.push(rel.components[i].clone());
            assert(self@ + rel@.take(i + 1) =~= (self@ + rel@.take(i as int)).push(
                rel@[i as int],
            ));
            i = i + 1;
        }
        joined
    }

    /// The directory that holds this path, where it has one.
    pub fn parent(&self) -> (dir: Option<FilePath>)
        ensures
            match dir {
                Some(p) => spec_parent(self@) == Some(p@),
                None => spec_parent(self@).is_none(),
            },
    {
        let n: usize = self.components.len();
        if n == 0 {
            return None;
        }
        if is_root_component(self.components[n - 1].as_str()) {
            return None;
        }
        Some(self.slice(0, n - 1))
    }

    /// The components from `from` up to `to`, as a path of their own.
    fn slice(&self, from: usize, to: usize) -> (part: FilePath)
        requires
            from <= to <= self.components.len(),
        ensures
            part@ == self@.subrange(from as int, to as int),
    {
        let mut components: Vec<String> = Vec::new();
        let mut i: usize = from;
        while i < to
            invariant
                from <= i <= to <= self.components.len(),
                components@.len() == i - from,
                forall|k: int| 0 <= k < i - from ==> components@[k]@ == self.components@[k + from]@,
            decreases to - i,
        {
            components.push(self.components[i].clone());
            i = i + 1;
        }
        FilePath { components }
    }

    /// The text of the path.
    pub fn render(&self) -> (text: String)
        ensures
            text@ == spec_render(self@),
    {
        let mut text = String::new();
        let mut i: usize = 0;
        let mut open_end: bool = false;
        while i < self.components.len()
            invariant
                i <= self.components.len(),
                text@ == spec_render(self@.take(i as int)),
                open_end == (text@.len() > 0 && text@.last() != '/'),
            decreases self.components.len() - i,
        {
            let component = self.components[i].as_str();
            let n: usize = component.unicode_len();
            proof {
                reveal_strlit("/");
                assert(self@.take(i + 1).drop_last() =~= self@.take(i as int));
            }
            if n > 0 && component.get_char(0) == '/' {
                text = String::from_str(component);
            } else {
                if open_end {
                    text.append("/");
                }
                text.append(component);
            }
            if n > 0 {
                open_end = component.get_char(n - 1) != '/';
            } else {
                open_end = false;
            }
            i = i + 1;
        }
        assert(self@.take(self@.len() as int) =~= self@);
        text
    }
}

/// Whether a component is the root directory.
pub fn is_root_component(component: &str) -> (root: bool)
    ensures
        root == (component@ == root_component()),
{
    if component.unicode_len() == 1 {
        let first = component.get_char(0);
        proof {
            if first == '/' {
                assert(component@ =~= root_component());
            }
        }
        first == '/'
    } else {
        false
    }
}

} // verus!
