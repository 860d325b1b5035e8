//! A render graph whose passes are registered by name: registering a name again gives
//! back the pass already registered under it.
use crate::render_graph::AttachmentDesc;
use vstd::prelude::*;
use vstd::string::StringSliceAdditionalSpecFns;

verus! {

/// Whether two names are the same string: they are when their UTF-8 bytes are.
pub fn names_equal(a: &str, b: &str) -> (same: bool)
    ensures
        same == (a@ == b@),
{
    let x = a.as_bytes();
    let y = b.as_bytes();
    proof {
        vstd::utf8::encode_utf8_decode_utf8(a@);
        vstd::utf8::encode_utf8_decode_utf8(b@);
    }
    if x.len() != y.len() {
        assert(a.spec_bytes() != b.spec_bytes());
        return false;
    }
    let mut i: usize = 0;
    while i < x.len()
        invariant
            x@ == a.spec_bytes(),
            y@ == b.spec_bytes(),
            x@.len() == y@.len(),
            i <= x@.len(),
            forall|j: int| 0 <= j < i ==> x@[j] == y@[j],
        decreases x@.len() - i,
    {
        if x[i] != y[i] {
            assert(a.spec_bytes() != b.spec_bytes());
            return false;
        }
        i += 1;
    }
    assert(a.spec_bytes() =~= b.spec_bytes());
    true
}

/// What an attachment of a named pass is: the swapchain image, or an image by name.
pub enum AttachmentType {
    SwapchainImage,
    Reference(String),
}

/// The same attachment: both the swapchain image, or references to the same name.
pub open spec fn same_attachment(a: AttachmentType, b: AttachmentType) -> bool {
    match (a, b) {
        (AttachmentType::SwapchainImage, AttachmentType::SwapchainImage) => true,
        (AttachmentType::Reference(x), AttachmentType::Reference(y)) => x@ == y@,
        _ => false,
    }
}

/// One target per attachment: the swapchain image is one attachment, every name is
/// another, and two references name the same attachment exactly when their names are
/// the same string.
pub proof fn attachments_are_told_apart_by_name(x: String, y: String)
    ensures
        same_attachment(AttachmentType::Reference(x), AttachmentType::Reference(y)) <==> x@ == y@,
        same_attachment(AttachmentType::SwapchainImage, AttachmentType::SwapchainImage),
        !same_attachment(AttachmentType::SwapchainImage, AttachmentType::Reference(x)),
        !same_attachment(AttachmentType::Reference(x), AttachmentType::SwapchainImage),
{
}

fn attachment_eq(a: &AttachmentType, b: &AttachmentType) -> (same: bool)
    ensures
        same == same_attachment(*a, *b),
{
    match (a, b) {
        (AttachmentType::SwapchainImage, AttachmentType::SwapchainImage) => true,
        (AttachmentType::Reference(x), AttachmentType::Reference(y)) => names_equal(x.as_str(), y.as_str()),
        _ => false,
    }
}

/// A pass: its color attachments, no attachment twice, and its depth attachment by name.
pub struct RenderPass {
    pub color_attachments: Vec<(AttachmentType, AttachmentDesc)>,
    pub depth_attachment: Option<(String, AttachmentDesc)>,
}

pub open spec fn attachments_distinct(colors: Seq<(AttachmentType, AttachmentDesc)>) -> bool {
    forall|i: int, j: int| 0 <= i < j < colors.len() ==> !same_attachment(#[trigger] colors[i].0, #[trigger] colors[j].0)
}

impl RenderPass {
    pub open spec fn wf(self) -> bool {
        attachments_distinct(self.color_attachments@)
    }

    pub fn new() -> (p: Self)
        ensures
            p.wf(),
            p.color_attachments@.len() == 0,
            p.depth_attachment.is_none(),
    {
        RenderPass { color_attachments: Vec::new(), depth_attachment: None }
    }

    /// Sets the attachment `attachment` to `desc`: an attachment already there is
    /// replaced where it stands, a new one goes last.
    pub fn add_color_attachment(&mut self, attachment: AttachmentType, desc: AttachmentDesc)
        requires
            old(self).wf(),
        ensures
            final(self).wf(),
            final(self).depth_attachment == old(self).depth_attachment,
            (exists|i: int| 0 <= i < old(self).color_attachments@.len()
                && same_attachment(#[trigger] old(self).color_attachments@[i].0, attachment)) ==> {
                &&& final(self).color_attachments@.len() == old(self).color_attachments@.len()
                &&& forall|i: int| 0 <= i < old(self).color_attachments@.len() ==> if same_attachment(
                    #[trigger] old(self).color_attachments@[i].0,
                    attachment,
                ) {
                    final(self).color_attachments@[i] == (attachment, desc)
                } else {
                    final(self).color_attachments@[i] == old(self).color_attachments@[i]
                }
            },
            !(exists|i: int| 0 <= i < old(self).color_attachments@.len()
                && same_attachment(#[trigger] old(self).color_attachments@[i].0, attachment))
                ==> final(self).color_attachments@ == old(self).color_attachments@.push((attachment, desc)),
    {
        let mut i: usize = 0;
        while i < self.color_attachments.len()
            invariant
                i <= self.color_attachments@.len(),
                self.color_attachments@ == old(self).color_attachments@,
                self.depth_attachment == old(self).depth_attachment,
                attachments_distinct(old(self).color_attachments@),
                forall|j: int| 0 <= j < i ==> !same_attachment(#[trigger] self.color_attachments@[j].0, attachment),
            decreases self.color_attachments@.len() - i,
        {
            if attachment_eq(&self.color_attachments[i].0, &attachment) {
                let ghost before = self.color_attachments@;
                self.color_attachments.set(i, (attachment, desc));
                proof {
                    assert forall|k: int| 0 <= k < before.len() implies if same_attachment(#[trigger] before[k].0, attachment) {
                        self.color_attachments@[k] == (attachment, desc)
                    } else {
                        self.color_attachments@[k] == before[k]
                    } by {
                        if k != i && same_attachment(before[k].0, attachment) {
                            lemma_same_attachment_transitive(before, k, i as int, attachment);
                        }
                    }
                    assert forall|a: int, b: int| 0 <= a < b < self.color_attachments@.len()
                        implies !same_attachment(#[trigger] self.color_attachments@[a].0, #[trigger] self.color_attachments@[b].0) by {
                        if a == i {
                            if same_attachment(attachment, before[b].0) {
                                lemma_same_attachment_symmetric(attachment, before[b].0);
                                lemma_same_attachment_transitive(before, b, i as int, attachment);
                            }
                        } else if b == i {
                            if same_attachment(before[a].0, attachment) {
                                lemma_same_attachment_transitive(before, a, i as int, attachment);
                            }
                        }
                    }
                }
                return;
            }
            i += 1;
        }
        self.color_attachments.push((attachment, desc));
        proof {
            assert forall|a: int, b: int| 0 <= a < b < self.color_attachments@.len()
                implies !same_attachment(#[trigger] self.color_attachments@[a].0, #[trigger] self.color_attachments@[b].0) by {
                if b == self.color_attachments@.len() - 1 {
                    assert(!same_attachment(old(self).color_attachments@[a].0, attachment));
                }
            }
        }
    }

    pub fn set_depth_attachment(&mut self, name: String, desc: AttachmentDesc)
        ensures
            final(self).depth_attachment == Some((name, desc)),
            final(self).color_attachments@ == old(self).color_attachments@,
    {
        self.depth_attachment = Some((name, desc));
    }
}

proof fn lemma_same_attachment_symmetric(a: AttachmentType, b: AttachmentType)
    ensures
        same_attachment(a, b) == same_attachment(b, a),
{
}

/// Two entries that both name `attachment` name the same attachment.
proof fn lemma_same_attachment_transitive(s: Seq<(AttachmentType, AttachmentDesc)>, k: int, i: int, attachment: AttachmentType)
    requires
        0 <= k < s.len(),
        0 <= i < s.len(),
        same_attachment(s[k].0, attachment),
        same_attachment(s[i].0, attachment),
    ensures
        same_attachment(s[k].0, s[i].0),
{
}

/// Passes by name, in the order in which they were registered; no name twice.
pub struct RenderGraph {
    pub passes: Vec<(String, RenderPass)>,
}

pub open spec fn names_distinct(passes: Seq<(String, RenderPass)>) -> bool {
    forall|i: int, j: int| 0 <= i < j < passes.len() ==> (#[trigger] passes[i]).0@ != (#[trigger] passes[j]).0@
}

impl RenderGraph {
    pub open spec fn wf(self) -> bool {
        &&& names_distinct(self.passes@)
        &&& forall|i: int| 0 <= i < self.passes@.len() ==> (#[trigger] self.passes@[i]).1.wf()
    }

    pub fn new() -> (g: Self)
        ensures
            g.wf(),
            g.passes@.len() == 0,
    {
        RenderGraph { passes: Vec::new() }
    }

    /// The index of the pass named `name`, registering an empty one under that name
    /// where there is none.
    pub fn register_pass(&mut self, name: String) -> (index: usize)
        requires
            old(self).wf(),
        ensures
            final(self).wf(),
            index < final(self).passes@.len(),
            final(self).passes@[index as int].0@ == name@,
            (exists|i: int| 0 <= i < old(self).passes@.len() && (#[trigger] old(self).passes@[i]).0@ == name@)
                ==> final(self).passes@ == old(self).passes@,
            !(exists|i: int| 0 <= i < old(self).passes@.len() && (#[trigger] old(self).passes@[i]).0@ == name@) ==> {
                &&& final(self).passes@.len() == old(self).passes@.len() + 1
                &&& forall|i: int| 0 <= i < old(self).passes@.len() ==> #[trigger] final(self).passes@[i] == old(self).passes@[i]
                &&& final(self).passes@[index as int].1.color_attachments@.len() == 0
                &&& final(self).passes@[index as int].1.depth_attachment.is_none()
                &&& index == old(self).passes@.len()
            },
    {
        let mut i: usize = 0;
        while i < self.passes.len()
            invariant
                i <= self.passes@.len(),
                self.passes@ == old(self).passes@,
                old(self).wf(),
                forall|j: int| 0 <= j < i ==> (#[trigger] self.passes@[j]).0@ != name@,
            decreases self.passes@.len() - i,
        {
            if names_equal(self.passes[i].0.as_str(), name.as_str()) {
                return i;
            }
            i += 1;
        }
        let index = self.passes.len();
        self.passes.push((name, RenderPass::new()));
        index
    }
}

impl RenderGraph {
    /// The pass at `index`, to add attachments to; its name stays.
    pub fn pass_mut(&mut self, index: usize) -> (pass: &mut RenderPass)
        requires
            index < old(self).passes@.len(),
        ensures
            *pass == old(self).passes@[index as int].1,
            final(self).passes@ == old(self).passes@.update(index as int, (old(self).passes@[index as int].0, *final(pass))),
    {
        &mut self.passes[index].1
    }
}

/// Changing a pass keeps a well-formed graph well formed as long as the pass stays
/// well formed, since names are kept.
pub proof fn lemma_update_pass_wf(g: Seq<(String, RenderPass)>, index: int, p: RenderPass)
    requires
        names_distinct(g),
        forall|i: int| 0 <= i < g.len() ==> (#[trigger] g[i]).1.wf(),
        0 <= index < g.len(),
        p.wf(),
    ensures
        names_distinct(g.update(index, (g[index].0, p))),
        forall|i: int| 0 <= i < g.len() ==> (#[trigger] g.update(index, (g[index].0, p))[i]).1.wf(),
{
    let h = g.update(index, (g[index].0, p));
    assert forall|i: int, j: int| 0 <= i < j < h.len() implies (#[trigger] h[i]).0@ != (#[trigger] h[j]).0@ by {
        assert(h[i].0 == g[i].0 && h[j].0 == g[j].0);
    }
}

/// The color attachments a frame can record: the swapchain image only.
pub open spec fn colors_recordable(p: RenderPass) -> bool {
    forall|i: int| 0 <= i < p.color_attachments@.len() ==> (#[trigger] p.color_attachments@[i]).0 is SwapchainImage
}

impl RenderGraph {
    /// What a frame records, pass by pass in registration order: each pass's color
    /// attachment descriptions, all on the swapchain image.
    pub fn frame_plan(&self) -> (plan: Vec<Vec<AttachmentDesc>>)
        requires
            forall|i: int| 0 <= i < self.passes@.len() ==> colors_recordable(#[trigger] self.passes@[i].1),
        ensures
            plan@.len() == self.passes@.len(),
            forall|i: int| 0 <= i < plan@.len() ==> (#[trigger] plan@[i])@ == self.passes@[i].1.color_attachments@.map_values(
                |e: (AttachmentType, AttachmentDesc)| e.1),
    {
        let mut plan: Vec<Vec<AttachmentDesc>> = Vec::new();
        let mut i: usize = 0;
        while i < self.passes.len()
            invariant
                i <= self.passes@.len(),
                plan@.len() == i,
                forall|k: int| 0 <= k < i ==> (#[trigger] plan@[k])@ == self.passes@[k].1.color_attachments@.map_values(
                    |e: (AttachmentType, AttachmentDesc)| e.1),
            decreases self.passes@.len() - i,
        {
            let colors = &self.passes[i].1.color_attachments;
            let mut descs: Vec<AttachmentDesc> = Vec::new();
            let mut j: usize = 0;
            while j < colors.len()
                invariant
                    j <= colors@.len(),
                    descs@ =~= colors@.take(j as int).map_values(|e: (AttachmentType, AttachmentDesc)| e.1),
                decreases colors@.len() - j,
            {
                descs.push(colors[j].1);
                j += 1;
            }
            assert(colors@.take(colors@.len() as int) =~= colors@);
            plan.push(descs);
            i += 1;
        }
        plan
    }
}

} // verus!
