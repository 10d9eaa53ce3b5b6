//! Render targets: a resizable set of color and depth attachments with a
//! derived viewport.  Resizing to the current dimensions is a no-op that
//! recreates nothing; resizing to new dimensions recreates every attachment
//! while preserving attachment count and formats.

use vstd::prelude::*;
use crate::texture::{
    Texture, TextureDescription, SamplerDescription, ResourceIds, BindFlags, TextureFormat,
    TextureWrap, TextureFilter, SliceViewDesc, is_depth_format, is_depth_format_x,
    spec_storage_format, spec_srv_format, spec_dsv_format, spec_max_anisotropy,
};

verus! {

/// One requested attachment: format, mips and sampling.
#[derive(Clone, Copy, Debug, PartialEq, Eq, Structural)]
pub struct RenderTargetAttachment {
    pub Format: TextureFormat,
    pub MipCount: u32,
    pub Wrap: TextureWrap,
    pub Filter: TextureFilter,
}

/// Requested render target: dimensions, clear color (as IEEE-754 bit
/// patterns) and attachment list.
pub struct RenderTargetDescription {
    pub Width: u32,
    pub Height: u32,
    pub ClearColor: [u32; 4],
    pub Attachments: Vec<RenderTargetAttachment>,
}

/// The region rendering covers: the full target, depth zero to one.
#[derive(Clone, Copy, Debug, PartialEq, Eq, Structural)]
pub struct Viewport {
    pub width: u32,
    pub height: u32,
}

/// Every attachment asks for at least one mip level.
pub open spec fn description_wf(d: RenderTargetDescription) -> bool {
    forall|i: int|
        0 <= i < d.Attachments@.len() ==> (#[trigger] d.Attachments@[i]).MipCount >= 1
}

/// An attachment whose format is a depth-stencil format.
pub open spec fn is_depth_attachment(a: RenderTargetAttachment) -> bool {
    is_depth_format(a.Format)
}

/// The color attachments of an attachment list, in order.
pub open spec fn spec_color_attachments(atts: Seq<RenderTargetAttachment>) -> Seq<
    RenderTargetAttachment,
> {
    atts.filter(|a: RenderTargetAttachment| !is_depth_attachment(a))
}

/// The last depth attachment of an attachment list, if any; a later depth
/// attachment replaces an earlier one.
pub open spec fn spec_last_depth(atts: Seq<RenderTargetAttachment>) -> Option<
    RenderTargetAttachment,
>
    decreases atts.len(),
{
    if atts.len() == 0 {
        None
    } else if is_depth_attachment(atts.last()) {
        Some(atts.last())
    } else {
        spec_last_depth(atts.drop_last())
    }
}

/// The texture an attachment's recreation produces, apart from its fresh
/// handle.
pub open spec fn texture_matches_attachment(
    t: Texture,
    a: RenderTargetAttachment,
    width: u32,
    height: u32,
) -> bool {
    &&& t.width == width
    &&& t.height == height
    &&& t.storage_format == spec_storage_format(a.Format)
    &&& t.mip_count == a.MipCount
    &&& t.array_size == 1
    &&& !t.is_cubemap
    &&& t.bind_flags == (BindFlags {
        shader_resource: true,
        render_target: !is_depth_attachment(a) || a.MipCount > 1,
        depth_stencil: is_depth_attachment(a),
        unordered_access: false,
    })
    &&& t.wrap == a.Wrap
    &&& t.filter == a.Filter
    &&& t.max_anisotropy == spec_max_anisotropy(a.Filter)
}

/// A render target: recreated attachment textures and views plus the
/// viewport covering them.
pub struct RenderTarget {
    pub description: RenderTargetDescription,
    pub color_attachments: Vec<Texture>,
    pub depth_attachment: Option<Texture>,
    pub render_target_views: Vec<SliceViewDesc>,
    pub depth_stencil_view: Option<SliceViewDesc>,
    pub viewport: Viewport,
}

impl RenderTarget {
    /// Attachments, views and viewport are exactly what the description
    /// calls for at its current dimensions.
    pub open spec fn wf(self) -> bool {
        let colors = spec_color_attachments(self.description.Attachments@);
        &&& description_wf(self.description)
        &&& self.color_attachments@.len() == colors.len()
        &&& forall|i: int|
            0 <= i < colors.len() ==> texture_matches_attachment(
                #[trigger] self.color_attachments@[i],
                colors[i],
                self.description.Width,
                self.description.Height,
            )
        &&& self.render_target_views@.len() == colors.len()
        &&& forall|i: int|
            0 <= i < colors.len() ==> #[trigger] self.render_target_views@[i] == (SliceViewDesc {
                texture: self.color_attachments@[i].id,
                format: spec_srv_format(self.color_attachments@[i].storage_format),
                is_array: false,
                mip_slice: 0,
                first_array_slice: 0,
                array_size: 1,
            })
        &&& match spec_last_depth(self.description.Attachments@) {
            Some(a) => {
                &&& self.depth_attachment matches Some(t) && texture_matches_attachment(
                    t,
                    a,
                    self.description.Width,
                    self.description.Height,
                )
                &&& self.depth_stencil_view matches Some(v) && v == (SliceViewDesc {
                    texture: self.depth_attachment->Some_0.id,
                    format: spec_dsv_format(self.depth_attachment->Some_0.storage_format),
                    is_array: false,
                    mip_slice: 0,
                    first_array_slice: 0,
                    array_size: 1,
                })
            },
            None => self.depth_attachment is None && self.depth_stencil_view is None,
        }
        &&& self.viewport == (Viewport {
            width: self.description.Width,
            height: self.description.Height,
        })
    }

    /// Builds a render target and creates its attachments.
    pub fn Create(description: RenderTargetDescription, ids: &mut ResourceIds) -> (r: RenderTarget)
        requires
            description_wf(description),
            old(ids).next + description.Attachments@.len() <= u64::MAX,
        ensures
            r.wf(),
            r.description.Width == description.Width,
            r.description.Height == description.Height,
            r.description.ClearColor == description.ClearColor,
            r.description.Attachments@ == description.Attachments@,
            final(ids).next == old(ids).next + description.Attachments@.len(),
    {
        let mut target = RenderTarget {
            description,
            color_attachments: Vec::new(),
            depth_attachment: None,
            render_target_views: Vec::new(),
            depth_stencil_view: None,
            viewport: Viewport { width: 0, height: 0 },
        };
        target.Invalidate(ids);
        target
    }

    /// Recreates every attachment texture and view at the description's
    /// current dimensions.
    fn Invalidate(&mut self, ids: &mut ResourceIds)
        requires
            description_wf(old(self).description),
            old(ids).next + old(self).description.Attachments@.len() <= u64::MAX,
        ensures
            final(self).wf(),
            final(self).description.Width == old(self).description.Width,
            final(self).description.Height == old(self).description.Height,
            final(self).description.ClearColor == old(self).description.ClearColor,
            final(self).description.Attachments@ == old(self).description.Attachments@,
            final(ids).next == old(ids).next + old(self).description.Attachments@.len(),
            forall|i: int|
                0 <= i < final(self).color_attachments@.len() ==> old(ids).next <= (
                #[trigger] final(self).color_attachments@[i]).id < final(ids).next,
            final(self).depth_attachment matches Some(t) ==> old(ids).next <= t.id < final(ids).next,
    {
        self.color_attachments = Vec::new();
        self.depth_attachment = None;
        self.render_target_views = Vec::new();
        self.depth_stencil_view = None;

        let ghost atts = self.description.Attachments@;
        let n = self.description.Attachments.len();
        let mut k: usize = 0;
        proof {
            assert(atts.take(0) =~= Seq::<RenderTargetAttachment>::empty());
            assert(spec_color_attachments(atts.take(0)) =~= Seq::<
                RenderTargetAttachment,
            >::empty());
        }
        while k < n
            invariant
                n == self.description.Attachments@.len(),
                atts == self.description.Attachments@,
                self.description == old(self).description,
                k <= n,
                old(ids).next + n <= u64::MAX,
                description_wf(self.description),
                ids.next == old(ids).next + k,
                forall|i: int|
                    0 <= i < self.color_attachments@.len() ==> old(ids).next <= (
                    #[trigger] self.color_attachments@[i]).id < ids.next,
                self.depth_attachment matches Some(t) ==> old(ids).next <= t.id < ids.next,
                self.color_attachments@.len() == spec_color_attachments(atts.take(k as int)).len(),
                forall|i: int|
                    0 <= i < self.color_attachments@.len() ==> texture_matches_attachment(
                        #[trigger] self.color_attachments@[i],
                        spec_color_attachments(atts.take(k as int))[i],
                        self.description.Width,
                        self.description.Height,
                    ),
                self.render_target_views@.len() == self.color_attachments@.len(),
                forall|i: int|
                    0 <= i < self.render_target_views@.len() ==> #[trigger] self
                        .render_target_views@[i] == (SliceViewDesc {
                        texture: self.color_attachments@[i].id,
                        format: spec_srv_format(self.color_attachments@[i].storage_format),
                        is_array: false,
                        mip_slice: 0,
                        first_array_slice: 0,
                        array_size: 1,
                    }),
                match spec_last_depth(atts.take(k as int)) {
                    Some(a) => {
                        &&& self.depth_attachment matches Some(t) && texture_matches_attachment(
                            t,
                            a,
                            self.description.Width,
                            self.description.Height,
                        )
                        &&& self.depth_stencil_view matches Some(v) && v == (SliceViewDesc {
                            texture: self.depth_attachment->Some_0.id,
                            format: spec_dsv_format(
                                self.depth_attachment->Some_0.storage_format,
                            ),
                            is_array: false,
                            mip_slice: 0,
                            first_array_slice: 0,
                            array_size: 1,
                        })
                    },
                    None => self.depth_attachment is None && self.depth_stencil_view is None,
                },
            decreases n - k,
        {
            proof {
                assert(atts.take(k as int + 1).drop_last() =~= atts.take(k as int));
                assert(atts.take(k as int + 1).last() == atts[k as int]);
                reveal_with_fuel(Seq::filter, 2);
            }
            let attachment = self.description.Attachments[k];
            let is_depth = is_depth_format_x(attachment.Format);

            let texture_desc = TextureDescription {
                name: String::new(),
                format: attachment.Format,
                width: self.description.Width,
                height: self.description.Height,
                bind_flags: BindFlags {
                    shader_resource: true,
                    render_target: !is_depth,
                    depth_stencil: is_depth,
                    unordered_access: false,
                },
                mip_count: attachment.MipCount,
                image_dims: Vec::new(),
            };
            let sampler_desc = SamplerDescription { wrap: attachment.Wrap, filter: attachment.Filter };

            let texture = Texture::CreateTexture2D(&texture_desc, &sampler_desc, ids);

            if is_depth {
                self.depth_stencil_view = Some(texture.CreateDSV(0, 0));
                self.depth_attachment = Some(texture);
            } else {
                self.render_target_views.push(texture.CreateRTV(0, 0));
                self.color_attachments.push(texture);
            }
            k = k + 1;
        }
        proof {
            assert(atts.take(n as int) =~= atts);
        }
        self.viewport = Viewport { width: self.description.Width, height: self.description.Height };
    }

    /// Changes the target's dimensions and recreates its attachments; when
    /// the requested dimensions equal the current ones, nothing at all
    /// happens and every attachment keeps its identity.
    pub fn Resize(&mut self, width: u32, height: u32, ids: &mut ResourceIds)
        requires
            old(self).wf(),
            old(ids).next + old(self).description.Attachments@.len() <= u64::MAX,
        ensures
            final(self).wf(),
            final(self).description.Width == width,
            final(self).description.Height == height,
            final(self).description.ClearColor == old(self).description.ClearColor,
            final(self).description.Attachments@ == old(self).description.Attachments@,
            width == old(self).description.Width && height == old(self).description.Height ==> {
                &&& *final(self) == *old(self)
                &&& *final(ids) == *old(ids)
            },
            !(width == old(self).description.Width && height == old(self).description.Height)
                ==> {
                &&& final(ids).next == old(ids).next + old(self).description.Attachments@.len()
                &&& forall|i: int|
                    0 <= i < final(self).color_attachments@.len() ==> old(ids).next <= (
                    #[trigger] final(self).color_attachments@[i]).id < final(ids).next
                &&& final(self).depth_attachment matches Some(t) ==> old(ids).next <= t.id
                    < final(ids).next
            },
    {
        if width != self.description.Width || height != self.description.Height {
            self.description.Width = width;
            self.description.Height = height;
            self.Invalidate(ids);
        }
    }

    pub fn GetColorAttachment(&self, slot: usize) -> (r: &Texture)
        requires
            slot < self.color_attachments@.len(),
        ensures
            r == &self.color_attachments@[slot as int],
    {
        &self.color_attachments[slot]
    }

    pub fn GetDepthAttachment(&self) -> (r: &Option<Texture>)
        ensures
            r == &self.depth_attachment,
    {
        &self.depth_attachment
    }

    pub fn GetWidth(&self) -> (r: u32)
        ensures
            r == self.description.Width,
    {
        self.description.Width
    }

    pub fn GetHeight(&self) -> (r: u32)
        ensures
            r == self.description.Height,
    {
        self.description.Height
    }

    pub fn GetClearColor(&self) -> (r: [u32; 4])
        ensures
            r == self.description.ClearColor,
    {
        self.description.ClearColor
    }

    pub fn GetRTVs(&self) -> (r: &Vec<SliceViewDesc>)
        ensures
            r == &self.render_target_views,
    {
        &self.render_target_views
    }

    pub fn GetDSV(&self) -> (r: &Option<SliceViewDesc>)
        ensures
            r == &self.depth_stencil_view,
    {
        &self.depth_stencil_view
    }

    pub fn GetViewport(&self) -> (r: Viewport)
        ensures
            r == self.viewport,
    {
        self.viewport
    }
}

} // verus!
