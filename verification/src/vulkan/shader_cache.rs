use vstd::prelude::*;

verus! {

/// The directory of shader sources, relative to the executable.
pub const SHADER_ASSET_DIR: &'static str = "assets/shaders";

/// The first component of the directory of shader sources.
pub const SHADER_ASSET_ROOT: &'static str = "assets";

/// The second component of the directory of shader sources.
pub const SHADER_ASSET_SUBDIR: &'static str = "shaders";

/// The directory of compiled shaders, relative to the executable.
pub const SHADER_CACHE_DIR: &'static str = "tmp/shaders";

/// The index of the last `c` in `s`, or -1 when there is none.
pub open spec fn last_index(s: Seq<char>, c: char) -> int
    decreases s.len(),
{
    if s.len() == 0 {
        -1
    } else if s.last() == c {
        s.len() - 1
    } else {
        last_index(s.drop_last(), c)
    }
}

/// The components of a shader path relative to the asset directory: without
/// the asset directory's two components in front; a path outside it is kept as
/// it is.
pub open spec fn relative_to_assets(components: Seq<Seq<char>>) -> Seq<Seq<char>> {
    if components.len() >= 2 && components[0] == SHADER_ASSET_ROOT@ && components[1] == SHADER_ASSET_SUBDIR@ {
        components.skip(2)
    } else {
        components
    }
}

/// Whether a path component names a file with an extension: a `.` after its
/// first character, the parent-directory component `..` excepted.
pub open spec fn has_extension(name: Seq<char>) -> bool {
    name != seq!['.', '.'] && last_index(name, '.') > 0
}

/// Where the compiled form of the shader whose path has the given components
/// (as the platform's path parser splits it: separators, repeated and trailing
/// ones included, are not components) is cached, as components below the cache
/// directory: the path relative to the asset directory, with `.spv` added to
/// the extension of its last component. A path whose last component has no
/// extension, or that has no component left, has no cache entry.
pub open spec fn spec_cached_components(components: Seq<Seq<char>>) -> Option<Seq<Seq<char>>> {
    let relative = relative_to_assets(components);
    if relative.len() > 0 && has_extension(relative.last()) {
        Some(relative.drop_last().push(relative.last() + ".spv"@))
    } else {
        None
    }
}

/// The last index of a character lies inside the sequence, or is -1.
proof fn lemma_last_index_bounds(s: Seq<char>, c: char)
    ensures
        -1 <= last_index(s, c) < s.len(),
    decreases s.len(),
{
    if s.len() > 0 && s.last() != c {
        lemma_last_index_bounds(s.drop_last(), c);
    }
}

/// Whether `a` and `b` hold the same text.
fn same_text(a: &str, b: &str) -> (r: bool)
    ensures
        r == (a@ == b@),
{
    let n = a.unicode_len();
    if n != b.unicode_len() {
        return false;
    }
    let mut i: usize = 0;
    while i < n
        invariant
            n == a@.len(),
            n == b@.len(),
            i <= n,
            forall|k: int| 0 <= k < i ==> a@[k] == b@[k],
        decreases n - i,
    {
        if a.get_char(i) != b.get_char(i) {
            return false;
        }
        i = i + 1;
    }
    assert(a@ =~= b@);
    true
}

/// The index of the last `c` in `s`, if any.
fn last_index_of(s: &str, c: char) -> (r: Option<usize>)
    ensures
        match r {
            Some(i) => i == last_index(s@, c) && i < s@.len(),
            None => last_index(s@, c) == -1,
        },
{
    proof {
        lemma_last_index_bounds(s@, c);
    }
    let mut i = s.unicode_len();
    assert(s@.take(i as int) =~= s@);
    while i > 0
        invariant
            i <= s@.len(),
            last_index(s@, c) == last_index(s@.take(i as int), c),
        decreases i,
    {
        let ghost t = s@.take(i as int);
        assert(t.drop_last() =~= s@.take(i - 1));
        if s.get_char(i - 1) == c {
            return Some(i - 1);
        }
        i = i - 1;
    }
    assert(s@.take(0) =~= Seq::<char>::empty());
    None
}

/// The text of each component.
pub open spec fn component_views(components: Seq<String>) -> Seq<Seq<char>> {
    components.map_values(|c: String| c@)
}

/// Where the compiled form of the shader with the path components `components`
/// is cached, as components below the cache directory; see
/// [`spec_cached_components`].
pub fn cached_shader_path(components: &Vec<String>) -> (r: Option<Vec<String>>)
    ensures
        r is None <==> spec_cached_components(component_views(components@)) is None,
        r matches Some(c) ==> spec_cached_components(component_views(components@)) == Some(component_views(c@)),
{
    let ghost views = component_views(components@);
    let n = components.len();
    let in_assets = n >= 2 && same_text(components[0].as_str(), SHADER_ASSET_ROOT) && same_text(
        components[1].as_str(),
        SHADER_ASSET_SUBDIR,
    );
    let first: usize = if in_assets {
        2
    } else {
        0
    };
    let ghost relative = relative_to_assets(views);
    assert(relative =~= views.skip(first as int));
    if first >= n {
        return None;
    }
    let last = components[n - 1].as_str();
    assert(last@ == relative.last());
    let is_parent = last.unicode_len() == 2 && last.get_char(0) == '.' && last.get_char(1) == '.';
    proof {
        if last@ == seq!['.', '.'] {
            assert(last@[0] == '.' && last@[1] == '.');
        }
        if is_parent {
            assert(last@ =~= seq!['.', '.']);
        }
    }
    let extension_found = match last_index_of(last, '.') {
        Some(i) => i > 0,
        None => false,
    };
    if is_parent || !extension_found {
        return None;
    }
    let mut cached: Vec<String> = Vec::new();
    let mut i: usize = first;
    while i < n - 1
        invariant
            first <= i <= n - 1,
            n == components@.len(),
            views == component_views(components@),
            component_views(cached@) == views.subrange(first as int, i as int),
        decreases n - 1 - i,
    {
        let c = components[i].clone();
        let ghost before = cached@;
        cached.push(c);
        assert(views[i as int] == components@[i as int]@);
        assert(cached@ == before.push(components@[i as int]));
        assert(component_views(cached@) =~= component_views(before).push(views[i as int]));
        assert(component_views(cached@) =~= views.subrange(first as int, i + 1));
        i = i + 1;
    }
    let mut name = String::from_str(last);
    name.append(".spv");
    let ghost before = cached@;
    cached.push(name);
    assert(component_views(cached@) =~= component_views(before).push(name@));
    assert(views.subrange(first as int, n - 1) =~= relative.drop_last());
    assert(component_views(cached@) =~= relative.drop_last().push(relative.last() + ".spv"@));
    Some(cached)
}

} // verus!
