use vstd::prelude::*;
use byteorder::ByteOrder;
use crate::vulkan::error::VulkanError;

verus! {

/// The stage a shader runs in.
#[derive(Debug, Copy, Clone, PartialEq, Eq, Structural, Hash)]
pub enum ShaderKind {
    Vertex,
    Fragment,
    Compute,
    Geometry,
    Mesh,
}

/// The name of a shader stage, as it appears in the names of the default shaders.
pub open spec fn spec_kind_name(kind: ShaderKind) -> Seq<char> {
    match kind {
        ShaderKind::Vertex => "vertex"@,
        ShaderKind::Fragment => "fragment"@,
        ShaderKind::Compute => "compute"@,
        ShaderKind::Geometry => "geometry"@,
        ShaderKind::Mesh => "mesh"@,
    }
}

impl ShaderKind {
    /// The name of the stage.
    pub fn name(&self) -> (s: &'static str)
        ensures
            s@ == spec_kind_name(*self),
    {
        match self {
            ShaderKind::Vertex => "vertex",
            ShaderKind::Fragment => "fragment",
            ShaderKind::Compute => "compute",
            ShaderKind::Geometry => "geometry",
            ShaderKind::Mesh => "mesh",
        }
    }
}

/// What a shader stage type says of itself.
pub trait StageInfo {
    /// The stage.
    spec fn spec_kind() -> ShaderKind;

    /// The stage.
    fn kind() -> (k: ShaderKind)
        ensures
            k == Self::spec_kind(),
    ;

    /// The GLSL source of the stage's fallback shader.
    spec fn spec_default_source() -> Seq<char>;

    /// The GLSL source of the stage's fallback shader.
    fn default_source() -> (s: String)
        ensures
            s@ == Self::spec_default_source(),
    ;
}

/// The vertex stage.
#[derive(Debug, Clone, Copy, Hash, PartialEq, Eq, Structural, PartialOrd, Ord)]
pub struct Vertex;

/// The GLSL source of the fallback vertex shader: a fixed triangle.
pub const VERTEX_DEFAULT_SOURCE: &'static str = "#version 460\n\n    vec2 positions[3] = vec2[](\n      vec2(0.0, -0.5),\n      vec2(0.5, 0.5),\n      vec2(-0.5, 0.5)\n    );\n\n    void main() {\n      gl_Position = vec4(positions[gl_VertexIndex], 0.0, 1.0);\n    }\n    ";

impl StageInfo for Vertex {
    open spec fn spec_kind() -> ShaderKind {
        ShaderKind::Vertex
    }

    fn kind() -> (k: ShaderKind) {
        ShaderKind::Vertex
    }

    open spec fn spec_default_source() -> Seq<char> {
        VERTEX_DEFAULT_SOURCE@
    }

    fn default_source() -> (s: String) {
        String::from_str(VERTEX_DEFAULT_SOURCE)
    }
}

/// The mesh stage.
#[derive(Debug, Clone, Copy, Hash, PartialEq, Eq, Structural, PartialOrd, Ord)]
pub struct Mesh;

impl StageInfo for Mesh {
    open spec fn spec_kind() -> ShaderKind {
        ShaderKind::Mesh
    }

    fn kind() -> (k: ShaderKind) {
        ShaderKind::Mesh
    }

    open spec fn spec_default_source() -> Seq<char> {
        ""@
    }

    fn default_source() -> (s: String) {
        String::from_str("")
    }
}

/// The little-endian value of the four bytes of word `i`.
pub open spec fn le_word(bytes: Seq<u8>, i: int) -> int {
    bytes[4 * i] + bytes[4 * i + 1] * 0x100 + bytes[4 * i + 2] * 0x10000 + bytes[4 * i + 3] * 0x1000000
}

/// The big-endian value of the four bytes of word `i`.
pub open spec fn be_word(bytes: Seq<u8>, i: int) -> int {
    bytes[4 * i + 3] + bytes[4 * i + 2] * 0x100 + bytes[4 * i + 1] * 0x10000 + bytes[4 * i] * 0x1000000
}

/// Whether `words` are `bytes` read four at a time in one byte order, little or
/// big endian.
pub open spec fn words_of(bytes: Seq<u8>, words: Seq<u32>) -> bool {
    &&& bytes.len() == 4 * words.len()
    &&& (forall|i: int| 0 <= i < words.len() ==> #[trigger] words[i] == le_word(bytes, i))
        || (forall|i: int| 0 <= i < words.len() ==> #[trigger] words[i] == be_word(bytes, i))
}

/// `byteorder::NativeEndian::read_u32_into`: fills `dst` with the words of `src`
/// in the byte order of the machine, which is little or big endian.
#[verifier::external_body]
fn read_u32_into(src: &Vec<u8>, dst: &mut Vec<u32>)
    requires
        src@.len() == 4 * old(dst)@.len(),
    ensures
        words_of(src@, final(dst)@),
{
    byteorder::NativeEndian::read_u32_into(src.as_slice(), dst.as_mut_slice())
}

/// SPIR-V bytes as 32-bit words in the machine's byte order.
pub fn to_words(bytes: Vec<u8>) -> (words: Vec<u32>)
    requires
        bytes@.len() % 4 == 0,
    ensures
        words_of(bytes@, words@),
{
    let n = bytes.len() / 4;
    let mut words: Vec<u32> = Vec::new();
    let mut i: usize = 0;
    while i < n
        invariant
            i <= n,
            words@.len() == i,
        decreases n - i,
    {
        words.push(0);
        i = i + 1;
    }
    read_u32_into(&bytes, &mut words);
    words
}

/// `bytemuck::try_cast_slice::<u8, u32>`: the bytes read as 32-bit words in the
/// machine's byte order. It fails when the byte count is not a multiple of four,
/// and also when the buffer does not start at an address aligned to four, which
/// depends on the allocator, so success is not promised otherwise.
#[verifier::external_body]
fn try_cast_words(bytes: &Vec<u8>) -> (r: Option<Vec<u32>>)
    ensures
        bytes@.len() % 4 != 0 ==> r is None,
        r matches Some(words) ==> words_of(bytes@, words@),
{
    match bytemuck::try_cast_slice::<u8, u32>(bytes.as_slice()) {
        Ok(words) => Some(words.to_vec()),
        Err(_) => None,
    }
}

/// The words of a freshly compiled shader, as the file reader casts them: fails
/// with a shader error when the bytes cannot be read as words in place.
pub fn cast_compiled_words(bytes: &Vec<u8>) -> (r: Result<Vec<u32>, VulkanError>)
    ensures
        bytes@.len() % 4 != 0 ==> r is Err,
        r matches Ok(words) ==> words_of(bytes@, words@),
        r matches Err(e) ==> (e matches VulkanError::Shader(m) && m@ == "failed to cast bytes"@),
{
    match try_cast_words(bytes) {
        Some(words) => Ok(words),
        None => Err(VulkanError::Shader(String::from_str("failed to cast bytes"))),
    }
}

/// The magic number that opens every SPIR-V module.
pub const SPIRV_MAGIC: u32 = 0x0723_0203;

/// Whether bytes hold a SPIR-V module in either byte order: a whole number of
/// words, at least one, the first of which is the magic number read little or
/// big endian.
pub open spec fn spirv_decodable(bytes: Seq<u8>) -> bool {
    &&& bytes.len() % 4 == 0
    &&& bytes.len() >= 4
    &&& (le_word(bytes, 0) == SPIRV_MAGIC || be_word(bytes, 0) == SPIRV_MAGIC)
}

/// `words` are the words of the SPIR-V module in `bytes`, read in the byte
/// order in which its first word is the magic number: little endian when it
/// reads so, else big endian.
pub open spec fn spirv_words_of(bytes: Seq<u8>, words: Seq<u32>) -> bool {
    &&& bytes.len() == 4 * words.len()
    &&& le_word(bytes, 0) == SPIRV_MAGIC ==> forall|i: int| 0 <= i < words.len() ==> #[trigger] words[i] == le_word(bytes, i)
    &&& le_word(bytes, 0) != SPIRV_MAGIC ==> forall|i: int| 0 <= i < words.len() ==> #[trigger] words[i] == be_word(bytes, i)
}

/// `ash::util::read_spv` over the bytes in memory: reads the words in the
/// machine's byte order and swaps them all when the first reads as the
/// byte-swapped magic number, so the words come out in the module's own byte
/// order whatever the machine's. It fails when the byte count is not a multiple
/// of four, or when no word or a first word other than the magic number comes
/// out.
#[verifier::external_body]
fn read_spv_words(bytes: &Vec<u8>) -> (r: Option<Vec<u32>>)
    ensures
        r is Some <==> spirv_decodable(bytes@),
        r matches Some(words) ==> spirv_words_of(bytes@, words@),
{
    ash::util::read_spv(&mut std::io::Cursor::new(bytes.as_slice())).ok()
}

/// The words of a cached SPIR-V module: the module's bytes in either byte order,
/// read as its words; fails with a shader error when the byte count is not a
/// multiple of four, or when the bytes hold no SPIR-V module.
pub fn decode_cached_spirv(bytes: &Vec<u8>) -> (r: Result<Vec<u32>, VulkanError>)
    ensures
        r is Ok <==> spirv_decodable(bytes@),
        r matches Ok(words) ==> spirv_words_of(bytes@, words@),
        bytes@.len() % 4 != 0 ==> (r matches Err(VulkanError::Shader(m)) && m@ == "input length not divisible by 4"@),
        bytes@.len() % 4 == 0 && !spirv_decodable(bytes@) ==> (r matches Err(VulkanError::Shader(m))
            && m@ == "input missing SPIR-V magic number"@),
{
    if bytes.len() % 4 != 0 {
        return Err(VulkanError::Shader(String::from_str("input length not divisible by 4")));
    }
    match read_spv_words(bytes) {
        Some(words) => Ok(words),
        None => Err(VulkanError::Shader(String::from_str("input missing SPIR-V magic number"))),
    }
}

/// A compiled shader: where it came from and its SPIR-V words.
#[derive(Clone, Debug, PartialEq, Eq, Hash)]
pub enum Source {
    SPIRV { path: String, words: Vec<u32> },
}

/// The path under which a stage's fallback shader is cached.
pub open spec fn spec_default_path(kind: ShaderKind) -> Seq<char> {
    "default_"@ + spec_kind_name(kind) + "_shader"@
}

impl Source {
    /// The path the shader came from.
    pub open spec fn spec_path(&self) -> Seq<char> {
        match self {
            Source::SPIRV { path, .. } => path@,
        }
    }

    /// The shader at `path`: read from the shader cache if there, else compiled
    /// from the file, else the stage's fallback shader.
    pub fn new<C, F, D>(path: String, read_from_cache: C, read_from_file: F, read_default: D) -> (s: Source) where
        C: FnOnce(&String) -> Option<Vec<u32>>,
        F: FnOnce(&String) -> Option<Vec<u32>>,
        D: FnOnce() -> Source,

        requires
            read_from_cache.requires((&path,)),
            read_from_file.requires((&path,)),
            read_default.requires(()),
        ensures
            (exists|cached: Option<Vec<u32>>| #[trigger] read_from_cache.ensures((&path,), cached)
                && (cached matches Some(words) && s == (Source::SPIRV { path, words })))
            || (exists|cached: Option<Vec<u32>>, compiled: Option<Vec<u32>>| #[trigger] read_from_cache.ensures((&path,), cached)
                && cached is None && #[trigger] read_from_file.ensures((&path,), compiled)
                && (compiled matches Some(words) && s == (Source::SPIRV { path, words })))
            || (exists|cached: Option<Vec<u32>>, compiled: Option<Vec<u32>>| #[trigger] read_from_cache.ensures((&path,), cached)
                && cached is None && #[trigger] read_from_file.ensures((&path,), compiled) && compiled is None
                && read_default.ensures((), s)),
    {
        match read_from_cache(&path) {
            Some(words) => Source::SPIRV { path, words },
            None => match read_from_file(&path) {
                Some(words) => Source::SPIRV { path, words },
                None => read_default(),
            },
        }
    }

    /// The fallback shader of stage `S`: read from the shader cache if there, else
    /// compiled from the stage's default source.
    pub fn read_default<S: StageInfo, C, G>(read_from_cache: C, compile: G) -> (s: Source) where
        C: FnOnce(&String) -> Option<Vec<u32>>,
        G: FnOnce(&String) -> Vec<u8>,

        requires
            forall|p: &String| #[trigger] read_from_cache.requires((p,)),
            forall|src: &String| #[trigger] compile.requires((src,)),
            forall|src: &String, bytes: Vec<u8>| #[trigger] compile.ensures((src,), bytes) ==> bytes@.len() % 4 == 0,
        ensures
            s.spec_path() == spec_default_path(S::spec_kind()),
            match s {
                Source::SPIRV { path, words } => (exists|cached: Option<Vec<u32>>| #[trigger] read_from_cache.ensures((&path,), cached)
                    && (cached == Some(words) || (cached is None && exists|src: &String, bytes: Vec<u8>| #[trigger] compile.ensures((src,), bytes) && src@ == S::spec_default_source() && words_of(bytes@, words@)))),
            },
    {
        let kind = S::kind();
        let mut path = String::from_str("default_");
        path.append(kind.name());
        path.append("_shader");
        match read_from_cache(&path) {
            Some(words) => Source::SPIRV { path, words },
            None => {
                let source = S::default_source();
                let bytes = compile(&source);
                let words = to_words(bytes);
                Source::SPIRV { path, words }
            },
        }
    }
}

} // verus!
