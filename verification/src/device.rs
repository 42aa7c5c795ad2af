//! The per-device capability object and the Config Matcher operations
//! on it: selecting a pixel-format configuration for requested
//! attributes, and resolving a descriptor back to the attributes its
//! configuration offers.

use vstd::prelude::*;

use crate::attributes::ContextAttributeFlags;
use crate::attributes::ContextAttributes;
use crate::config::spec_config_matches;
use crate::config::spec_first_config_with_id;
use crate::config::spec_first_match;
use crate::config::spec_has_config_with_id;
use crate::config::spec_has_matching_config;
use crate::config::spec_is_first_config_with_id;
use crate::config::spec_is_first_match;
use crate::config::config_matches;
use crate::config::get_fb_config_from_id;
use crate::config::lemma_first_config_with_id_exists;
use crate::config::lemma_first_match_exists;
use crate::config::lemma_first_match_unique;
use crate::config::FbConfig;
use crate::context::ContextDescriptor;
use crate::error::Error;

verus! {

/// A device: the native display handle it was opened on, and the
/// snapshot of framebuffer configurations that display offers, in
/// native order.  The display handle is opaque here; the unverified
/// shell reads the configurations back from the windowing system when
/// the device is opened and must keep the display alive for the
/// device's lifetime.
#[derive(PartialEq, Eq, Debug)]
pub struct Device {
    /// The native display handle (opaque).
    pub display: u64,
    /// The configurations the display offers, in native order.
    pub configs: Vec<FbConfig>,
}

impl Device {
    /// Well-formedness: the windowing system assigns each
    /// configuration a unique identifier, so the snapshot carries
    /// pairwise distinct ids.
    pub open spec fn wf(self) -> bool {
        forall|i: int, j: int|
            0 <= i < j < self.configs@.len() ==> self.configs@[i].id != self.configs@[j].id
    }

    /// Decides well-formedness: whether the snapshot's configuration
    /// identifiers are pairwise distinct.  A healthy windowing system
    /// always reports distinct identifiers; this check lets a caller
    /// establish [`Device::wf`] for a snapshot it was handed.
    pub fn configs_have_distinct_ids(&self) -> (r: bool)
        ensures
            r == self.wf(),
    {
        let n = self.configs.len();
        let mut i: usize = 0;
        while i < n
            invariant
                0 <= i <= n,
                n == self.configs@.len(),
                forall|p: int, q: int|
                    0 <= p < q < self.configs@.len() && p < i ==> self.configs@[p].id
                        != self.configs@[q].id,
            decreases n - i,
        {
            let mut j: usize = i + 1;
            while j < n
                invariant
                    0 <= i < j <= n,
                    n == self.configs@.len(),
                    forall|p: int, q: int|
                        0 <= p < q < self.configs@.len() && p < i ==> self.configs@[p].id
                            != self.configs@[q].id,
                    forall|q: int| i < q < j ==> self.configs@[i as int].id != self.configs@[q].id,
                decreases n - j,
            {
                if self.configs[i].id == self.configs[j].id {
                    return false;
                }
                j += 1;
            }
            i += 1;
        }
        true
    }

    /// The descriptor the Config Matcher produces for `attributes`:
    /// the first acceptable configuration's identifier, paired with
    /// the requested GL version; an error exactly when no
    /// configuration is acceptable.
    pub open spec fn spec_create_context_descriptor(
        self,
        attributes: ContextAttributes,
    ) -> Result<ContextDescriptor, Error> {
        if spec_has_matching_config(self.configs@, attributes.flags) {
            Ok(
                ContextDescriptor {
                    pixmap_glx_fb_config_id: self.configs@[spec_first_match(
                        self.configs@,
                        attributes.flags,
                    )].id,
                    gl_version: attributes.version,
                },
            )
        } else {
            Err(Error::NoMatchingConfig)
        }
    }

    /// Selects a pixel-format configuration satisfying `attributes`
    /// and wraps its identifier and the requested GL version into a
    /// descriptor.  The configurations are considered in native order
    /// and the first acceptable one is taken; fails with
    /// `NoMatchingConfig` exactly when none is acceptable.
    pub fn create_context_descriptor(&self, attributes: &ContextAttributes) -> (r: Result<
        ContextDescriptor,
        Error,
    >)
        ensures
            r == self.spec_create_context_descriptor(*attributes),
            r is Ok <==> spec_has_matching_config(self.configs@, attributes.flags),
            r matches Ok(d) ==> spec_has_config_with_id(self.configs@, d.pixmap_glx_fb_config_id)
                && d.gl_version == attributes.version,
    {
        let n = self.configs.len();
        let mut i: usize = 0;
        while i < n
            invariant
                0 <= i <= n,
                n == self.configs@.len(),
                forall|k: int| 0 <= k < i ==> !spec_config_matches(self.configs@[k], attributes.flags),
            decreases n - i,
        {
            if config_matches(&self.configs[i], &attributes.flags) {
                proof {
                    assert(spec_is_first_match(self.configs@, attributes.flags, i as int));
                    lemma_first_match_exists(self.configs@, attributes.flags);
                    lemma_first_match_unique(
                        self.configs@,
                        attributes.flags,
                        i as int,
                        spec_first_match(self.configs@, attributes.flags),
                    );
                }
                return Ok(
                    ContextDescriptor {
                        pixmap_glx_fb_config_id: self.configs[i].id,
                        gl_version: attributes.version,
                    },
                );
            }
            i += 1;
        }
        Err(Error::NoMatchingConfig)
    }

    /// The capability flags a configuration offers: presence of alpha,
    /// depth and stencil channels.
    pub open spec fn spec_flags_of_config(c: FbConfig) -> ContextAttributeFlags {
        ContextAttributeFlags {
            alpha: c.alpha_size != 0,
            depth: c.depth_size != 0,
            stencil: c.stencil_size != 0,
        }
    }

    /// The attributes reported for `descriptor`: the capability flags
    /// of the first configuration carrying the descriptor's
    /// identifier, with the descriptor's stored GL version.
    pub open spec fn spec_context_descriptor_attributes(
        self,
        descriptor: ContextDescriptor,
    ) -> ContextAttributes {
        ContextAttributes {
            flags: Self::spec_flags_of_config(
                self.configs@[spec_first_config_with_id(
                    self.configs@,
                    descriptor.pixmap_glx_fb_config_id,
                )],
            ),
            version: descriptor.gl_version,
        }
    }

    /// Resolves `descriptor` to its configuration.  The identifier
    /// must be one the device offers; descriptors produced by this
    /// device's matcher always are, and a stale identifier would mean
    /// the native configuration store is corrupt.
    pub fn context_descriptor_to_glx_fb_config(&self, descriptor: &ContextDescriptor) -> (r:
        FbConfig)
        requires
            spec_has_config_with_id(self.configs@, descriptor.pixmap_glx_fb_config_id),
        ensures
            spec_is_first_config_with_id(
                self.configs@,
                descriptor.pixmap_glx_fb_config_id,
                spec_first_config_with_id(self.configs@, descriptor.pixmap_glx_fb_config_id),
            ),
            r == self.configs@[spec_first_config_with_id(
                self.configs@,
                descriptor.pixmap_glx_fb_config_id,
            )],
    {
        let found = get_fb_config_from_id(&self.configs, descriptor.pixmap_glx_fb_config_id);
        found.unwrap()
    }

    /// Reads back the capability flags the descriptor's configuration
    /// offers and pairs them with the descriptor's stored GL version.
    /// A pure read with no side effects.
    pub fn context_descriptor_attributes(&self, context_descriptor: &ContextDescriptor) -> (r:
        ContextAttributes)
        requires
            spec_has_config_with_id(self.configs@, context_descriptor.pixmap_glx_fb_config_id),
        ensures
            r == self.spec_context_descriptor_attributes(*context_descriptor),
    {
        let config = self.context_descriptor_to_glx_fb_config(context_descriptor);
        ContextAttributes {
            flags: ContextAttributeFlags {
                alpha: config.alpha_size != 0,
                depth: config.depth_size != 0,
                stencil: config.stencil_size != 0,
            },
            version: context_descriptor.gl_version,
        }
    }
}

/// Law: for every attribute request a well-formed device can satisfy,
/// resolving the descriptor the matcher produced reports exactly the
/// requested capability flags (alpha, depth and stencil presence) and
/// the requested GL version.
pub proof fn lemma_descriptor_attributes_round_trip(device: Device, attributes: ContextAttributes)
    requires
        device.wf(),
        spec_has_matching_config(device.configs@, attributes.flags),
    ensures
        device.spec_create_context_descriptor(attributes) matches Ok(d)
            && device.spec_context_descriptor_attributes(d) == attributes,
{
    let s = device.configs@;
    let flags = attributes.flags;
    lemma_first_match_exists(s, flags);
    let j = spec_first_match(s, flags);
    let d = device.spec_create_context_descriptor(attributes).unwrap();
    assert(d.pixmap_glx_fb_config_id == s[j].id);
    assert(spec_has_config_with_id(s, s[j].id));
    lemma_first_config_with_id_exists(s, s[j].id);
    let k = spec_first_config_with_id(s, s[j].id);
    assert(s[k].id == s[j].id);
    if k != j {
        assert(s[k].id != s[j].id) by {
            if k < j {
                assert(0 <= k < j < s.len());
            } else {
                assert(0 <= j < k < s.len());
            }
        }
        assert(false);
    }
    assert(spec_config_matches(s[j], flags));
    assert(Device::spec_flags_of_config(s[j]) == flags);
}

} // verus!
