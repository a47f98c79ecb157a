use vstd::prelude::*;
use crate::vulkan::builder::ValidationStatus;
use crate::vulkan::error::{Unsupported, VulkanError};
use crate::vulkan::names::{lemma_missing_iff, missing, missing_names, name_views};

verus! {

/// The validation layers of a debug build (none in a release build).
pub open spec fn spec_validation_layers(debug_build: bool) -> Seq<Seq<char>> {
    if debug_build {
        seq!["VK_LAYER_KHRONOS_validation"@]
    } else {
        Seq::empty()
    }
}

/// The instance extensions the renderer itself needs: the surface extension, and
/// in a debug build the debug-utils extension.
pub open spec fn spec_instance_extensions(debug_build: bool) -> Seq<Seq<char>> {
    if debug_build {
        seq!["VK_KHR_surface"@, "VK_EXT_debug_utils"@]
    } else {
        seq!["VK_KHR_surface"@]
    }
}

/// The validation layers of a debug build (none in a release build).
pub fn validation_layers(debug_build: bool) -> (names: Vec<String>)
    ensures
        name_views(names@) == spec_validation_layers(debug_build),
{
    let mut names: Vec<String> = Vec::new();
    if debug_build {
        names.push(String::from_str("VK_LAYER_KHRONOS_validation"));
    }
    assert(name_views(names@) == spec_validation_layers(debug_build));
    names
}

/// The instance extensions the renderer itself needs.
pub fn instance_extensions(debug_build: bool) -> (names: Vec<String>)
    ensures
        name_views(names@) == spec_instance_extensions(debug_build),
{
    let mut names: Vec<String> = Vec::new();
    names.push(String::from_str("VK_KHR_surface"));
    if debug_build {
        names.push(String::from_str("VK_EXT_debug_utils"));
    }
    assert(name_views(names@) == spec_instance_extensions(debug_build));
    names
}

/// The layers and extensions to create an instance with, or what the driver
/// lacks: every validation layer of the build must be supported (even when
/// validation is disabled) and is requested only when validation is enabled; the
/// requested extensions are those the window system needs followed by the
/// renderer's own, and all must be supported.
pub open spec fn spec_request(
    supported_layers: Seq<Seq<char>>,
    supported_extensions: Seq<Seq<char>>,
    window_extensions: Seq<Seq<char>>,
    validation_status: ValidationStatus,
    debug_build: bool,
) -> Option<(Seq<Seq<char>>, Seq<Seq<char>>)> {
    let layers = spec_validation_layers(debug_build);
    let extensions = window_extensions + spec_instance_extensions(debug_build);
    if missing(layers, supported_layers).len() > 0 || missing(extensions, supported_extensions).len() > 0 {
        None
    } else {
        Some((
            if validation_status == ValidationStatus::Disabled {
                Seq::empty()
            } else {
                layers
            },
            extensions,
        ))
    }
}

/// Chooses the layers and extensions to create an instance with, from what the
/// driver supports and what the window system needs.
pub fn request_layers_and_extensions(
    supported_layers: &Vec<String>,
    supported_extensions: &Vec<String>,
    window_extensions: &Vec<String>,
    validation_status: ValidationStatus,
    debug_build: bool,
) -> (r: Result<(Vec<String>, Vec<String>), VulkanError>)
    ensures
        ({
            let expected = spec_request(
                name_views(supported_layers@),
                name_views(supported_extensions@),
                name_views(window_extensions@),
                validation_status,
                debug_build,
            );
            let layers = spec_validation_layers(debug_build);
            let extensions = name_views(window_extensions@) + spec_instance_extensions(debug_build);
            &&& r is Ok <==> expected is Some
            &&& r matches Ok((l, e)) ==> expected == Some((name_views(l@), name_views(e@)))
            &&& r matches Err(err) ==> (if missing(layers, name_views(supported_layers@)).len() > 0 {
                err matches VulkanError::Unsupported(Unsupported::MissingLayers(m)) && name_views(m@) == missing(layers, name_views(supported_layers@))
            } else {
                err matches VulkanError::Unsupported(Unsupported::MissingInstanceExtensions(m)) && name_views(m@) == missing(extensions, name_views(supported_extensions@))
            })
        }),
{
    let layers = validation_layers(debug_build);
    let missing_layers = missing_names(&layers, supported_layers);
    if missing_layers.len() > 0 {
        return Err(VulkanError::Unsupported(Unsupported::MissingLayers(missing_layers)));
    }
    let requested_layers = if validation_status == ValidationStatus::Disabled {
        Vec::new()
    } else {
        layers
    };
    let mut requested_extensions: Vec<String> = Vec::new();
    let mut i: usize = 0;
    while i < window_extensions.len()
        invariant
            i <= window_extensions@.len(),
            name_views(requested_extensions@) == name_views(window_extensions@).take(i as int),
            requested_extensions@.len() == i,
        decreases window_extensions@.len() - i,
    {
        let name = window_extensions[i].clone();
        let ghost before = requested_extensions@;
        requested_extensions.push(name);
        assert(requested_extensions@ == before.push(name));
        assert(name_views(requested_extensions@) =~= name_views(window_extensions@).take(i + 1)) by {
            assert(name_views(before) == name_views(window_extensions@).take(i as int));
            assert forall|k: int| 0 <= k < i + 1 implies #[trigger] name_views(requested_extensions@)[k] == name_views(window_extensions@).take(i + 1)[k] by {
                if k < i {
                    assert(name_views(before)[k] == before[k]@);
                }
            }
        }
        i = i + 1;
    }
    assert(name_views(window_extensions@).take(window_extensions@.len() as int) == name_views(window_extensions@));
    let own = instance_extensions(debug_build);
    let mut j: usize = 0;
    while j < own.len()
        invariant
            j <= own@.len(),
            name_views(requested_extensions@) == name_views(window_extensions@) + name_views(own@).take(j as int),
            requested_extensions@.len() == window_extensions@.len() + j,
        decreases own@.len() - j,
    {
        let name = own[j].clone();
        let ghost before = requested_extensions@;
        requested_extensions.push(name);
        assert(requested_extensions@ == before.push(name));
        assert(name_views(requested_extensions@) =~= name_views(window_extensions@) + name_views(own@).take(j + 1)) by {
            let w = name_views(window_extensions@);
            assert(name_views(before) == w + name_views(own@).take(j as int));
            assert forall|k: int| 0 <= k < w.len() + j + 1 implies #[trigger] name_views(requested_extensions@)[k] == (w + name_views(own@).take(j + 1))[k] by {
                if k < w.len() + j {
                    assert(name_views(before)[k] == before[k]@);
                }
            }
        }
        j = j + 1;
    }
    assert(name_views(own@).take(own@.len() as int) == name_views(own@));
    let missing_extensions = missing_names(&requested_extensions, supported_extensions);
    if missing_extensions.len() > 0 {
        return Err(VulkanError::Unsupported(Unsupported::MissingInstanceExtensions(missing_extensions)));
    }
    proof {
        if validation_status == ValidationStatus::Disabled {
            assert(name_views(requested_layers@) == Seq::<Seq<char>>::empty());
        }
    }
    Ok((requested_layers, requested_extensions))
}

/// A successful request asks for every extension the window system needs and
/// every one the renderer needs, all of them supported; it asks for the
/// validation layers only when validation is enabled, and they are supported.
pub proof fn lemma_request_is_supported(
    supported_layers: Seq<Seq<char>>,
    supported_extensions: Seq<Seq<char>>,
    window_extensions: Seq<Seq<char>>,
    validation_status: ValidationStatus,
    debug_build: bool,
    name: Seq<char>,
)
    ensures
        spec_request(supported_layers, supported_extensions, window_extensions, validation_status, debug_build) matches Some((layers, extensions)) ==> {
            &&& extensions == window_extensions + spec_instance_extensions(debug_build)
            &&& (validation_status == ValidationStatus::Disabled ==> layers.len() == 0)
            &&& (validation_status == ValidationStatus::Enabled ==> layers == spec_validation_layers(debug_build))
            &&& (extensions.contains(name) ==> supported_extensions.contains(name))
            &&& (layers.contains(name) ==> supported_layers.contains(name))
        },
{
    let layers = spec_validation_layers(debug_build);
    let extensions = window_extensions + spec_instance_extensions(debug_build);
    lemma_missing_iff(layers, supported_layers, name);
    lemma_missing_iff(extensions, supported_extensions, name);
    if missing(extensions, supported_extensions).len() == 0 {
        assert(!missing(extensions, supported_extensions).contains(name));
    }
    if missing(layers, supported_layers).len() == 0 {
        assert(!missing(layers, supported_layers).contains(name));
    }
}

} // verus!
