use crate::assets::{
    blob_map, blobs_view, conditional_image_writes, static_image_writes, Blobs, ElementWrite,
};
use crate::render_guard::RenderGuard;
use crate::wire::{
    conditional_images_of, decode_conditional_images, decode_envelope, decode_fonts,
    decode_render_data, decode_static_images, envelope_of, fonts_of, group_map, groups_view,
    groups_well_formed, lists_map, render_data_decodes, static_images_of, ImageGroups, MessageKind,
};
use std::collections::HashMap;
use vstd::prelude::*;

verus! {

/// Font family → font bytes, replaced as a whole by every text message.
pub struct FontCache {
    fonts: HashMap<String, Vec<u8>>,
}

impl View for FontCache {
    type V = Map<Seq<char>, Seq<u8>>;

    closed spec fn view(&self) -> Map<Seq<char>, Seq<u8>> {
        self.fonts.deep_view()
    }
}

impl FontCache {
    pub fn new() -> (c: Self)
        ensures
            c@ == Map::<Seq<char>, Seq<u8>>::empty(),
    {
        let fonts: HashMap<String, Vec<u8>> = HashMap::new();
        proof {
            vstd::std_specs::hash::lemma_hashmap_deepview_dom(fonts);
            assert(fonts@.dom() =~= Set::<String>::empty());
            assert(fonts.deep_view().dom() =~= Set::<Seq<char>>::empty());
            assert(fonts.deep_view() =~= Map::<Seq<char>, Seq<u8>>::empty());
        }
        FontCache { fonts }
    }

    /// Drops every font held and takes `fonts` in their place.
    pub fn replace(&mut self, fonts: HashMap<String, Vec<u8>>)
        ensures
            final(self)@ == fonts.deep_view(),
    {
        self.fonts = fonts;
    }

    /// The fonts, for the renderer.
    pub fn fonts(&self) -> (r: &HashMap<String, Vec<u8>>)
        ensures
            r.deep_view() == self@,
    {
        &self.fonts
    }
}

/// The font mapping after a message arrives at a cache holding `current`:
/// a text message that decodes replaces it, anything else leaves it.
pub open spec fn fonts_after(current: Map<Seq<char>, Seq<u8>>, bytes: Seq<u8>) -> Map<
    Seq<char>,
    Seq<u8>,
> {
    match envelope_of(bytes) {
        Some((MessageKind::PrepareText, payload)) => match fonts_of(payload) {
            Some(fonts) => fonts,
            None => current,
        },
        _ => current,
    }
}

/// Receiving the same message twice leaves the same fonts as receiving it
/// once: text messages replace the mapping, they never merge into it.
pub proof fn lemma_resent_text_is_idempotent(current: Map<Seq<char>, Seq<u8>>, bytes: Seq<u8>)
    ensures
        fonts_after(fonts_after(current, bytes), bytes) == fonts_after(current, bytes),
{
}

/// Why a message was dropped.
#[derive(Clone, Copy, Debug, PartialEq, Eq, Structural)]
pub enum DecodeError {
    /// The bytes are no envelope.
    Envelope,
    /// The payload does not decode as the tag says.
    Payload(MessageKind),
}

/// Whether the payload of an envelope with tag `kind` decodes.
pub open spec fn payload_decodes(kind: MessageKind, payload: Seq<u8>) -> bool {
    match kind {
        MessageKind::PrepareText => fonts_of(payload) is Some,
        MessageKind::PrepareStaticImage => static_images_of(payload) is Some,
        MessageKind::PrepareConditionalImage => conditional_images_of(payload) is Some,
        MessageKind::RenderImage => render_data_decodes(payload),
    }
}

/// Whether `bytes` is a message that decodes completely.
pub open spec fn message_decodes(bytes: Seq<u8>) -> bool {
    match envelope_of(bytes) {
        Some((kind, payload)) => payload_decodes(kind, payload),
        None => false,
    }
}

/// The tag of a message whose envelope decodes.
pub open spec fn kind_of(bytes: Seq<u8>) -> MessageKind {
    envelope_of(bytes)->Some_0.0
}

/// A frame to render: the display configuration and the newest sensor values.
pub struct RenderFrame {
    pub config: sensor_core::DisplayConfig,
    pub values: Vec<sensor_core::SensorValue>,
}

/// What handling one message came to.
pub enum Dispatched {
    /// The font cache now holds the message's fonts.
    FontsReplaced,
    /// These element directories are to be rewritten; the writes of
    /// different elements are independent of each other.
    Persist(Vec<ElementWrite>),
    /// A render job was accepted for this frame and holds the guard.
    RenderAccepted(RenderFrame),
    /// A job was running: the frame was dropped.
    RenderSkipped,
    /// The message did not decode and was dropped.
    Dropped(DecodeError),
}

/// Whether the writes `w` are those of static images `m`: one directory per
/// element, holding one file named by the element id.
pub open spec fn writes_static(w: Seq<ElementWrite>, m: Map<Seq<char>, Seq<u8>>) -> bool {
    exists|v: Seq<(String, Vec<u8>)>|
        {
            &&& #[trigger] lists_map(v, m)
            &&& w.len() == v.len()
            &&& forall|i: int|
                0 <= i < w.len() ==> {
                    &&& #[trigger] w[i].kind == crate::assets::AssetKind::StaticImage
                    &&& w[i].element_id@ == v[i].0@
                    &&& forall|cache: crate::assets::CacheModel| #[trigger] w[i].applied(cache)
                        == cache.insert(
                        (crate::assets::AssetKind::StaticImage, v[i].0@),
                        map![v[i].0@ => v[i].1@],
                    )
                }
        }
}

/// Whether the writes `w` are those of conditional images `m`: one directory
/// per element, holding exactly that element's named images.
pub open spec fn writes_conditional(w: Seq<ElementWrite>, m: Map<Seq<char>, Map<Seq<char>, Seq<u8>>>) -> bool {
    exists|v: Seq<(String, Blobs)>|
        {
            &&& groups_well_formed(#[trigger] groups_view(v))
            &&& group_map(groups_view(v)) == m
            &&& w.len() == v.len()
            &&& forall|i: int|
                0 <= i < w.len() ==> {
                    &&& #[trigger] w[i].kind == crate::assets::AssetKind::ConditionalImage
                    &&& w[i].element_id@ == v[i].0@
                    &&& forall|cache: crate::assets::CacheModel| #[trigger] w[i].applied(cache)
                        == cache.insert(
                        (crate::assets::AssetKind::ConditionalImage, v[i].0@),
                        blob_map(blobs_view(v[i].1@)),
                    )
                }
        }
}

/// Data of the polling transport: a frame and the server's time stamp.
pub struct SensorDataResponse {
    pub render_data: RenderFrame,
    pub timestamp: u64,
}

/// Hands `frame` to rendering when no job holds the guard, and drops it
/// otherwise: frames are never queued.
pub fn submit_frame(frame: RenderFrame, guard: &mut RenderGuard) -> (r: Dispatched)
    ensures
        final(guard).spec_busy(),
        old(guard).spec_busy() ==> r is RenderSkipped,
        !old(guard).spec_busy() ==> r == Dispatched::RenderAccepted(frame),
        final(guard).spec_accepted() == old(guard).spec_accepted() + if old(guard).spec_busy() {
            0nat
        } else {
            1nat
        },
        final(guard).spec_released() == old(guard).spec_released(),
{
    if guard.try_begin() {
        Dispatched::RenderAccepted(frame)
    } else {
        Dispatched::RenderSkipped
    }
}

/// Decodes one message and routes it: fonts into the font cache, images to
/// the asset cache, a frame to rendering when no job holds the guard. A
/// message that does not decode is dropped, and changes nothing.
pub fn dispatch(bytes: &[u8], fonts: &mut FontCache, guard: &mut RenderGuard) -> (r: Dispatched)
    ensures
        final(fonts)@ == fonts_after(old(fonts)@, bytes@),
        envelope_of(bytes@) is None ==> r == Dispatched::Dropped(DecodeError::Envelope),
        envelope_of(bytes@) is Some && !message_decodes(bytes@) ==> r == Dispatched::Dropped(
            DecodeError::Payload(kind_of(bytes@)),
        ),
        !(message_decodes(bytes@) && kind_of(bytes@) == MessageKind::RenderImage) ==> {
            &&& final(guard).spec_busy() == old(guard).spec_busy()
            &&& final(guard).spec_accepted() == old(guard).spec_accepted()
        },
        final(guard).spec_accepted() == old(guard).spec_accepted() + if final(guard).spec_busy()
            && !old(guard).spec_busy() {
            1nat
        } else {
            0nat
        },
        final(guard).spec_released() == old(guard).spec_released(),
        message_decodes(bytes@) ==> match kind_of(bytes@) {
            MessageKind::PrepareText => r is FontsReplaced,
            MessageKind::PrepareStaticImage => r matches Dispatched::Persist(w) && writes_static(
                w@,
                static_images_of(envelope_of(bytes@)->Some_0.1)->Some_0,
            ),
            MessageKind::PrepareConditionalImage => r matches Dispatched::Persist(w)
                && writes_conditional(
                w@,
                conditional_images_of(envelope_of(bytes@)->Some_0.1)->Some_0,
            ),
            MessageKind::RenderImage => {
                &&& final(guard).spec_busy()
                &&& old(guard).spec_busy() ==> r is RenderSkipped
                &&& !old(guard).spec_busy() ==> r is RenderAccepted
            },
        },
{
    let (kind, payload) = match decode_envelope(bytes) {
        Ok(m) => m,
        Err(_) => {
            return Dispatched::Dropped(DecodeError::Envelope);
        },
    };
    match kind {
        MessageKind::PrepareText => match decode_fonts(payload.as_slice()) {
            Ok(m) => {
                fonts.replace(m);
                Dispatched::FontsReplaced
            },
            Err(_) => Dispatched::Dropped(DecodeError::Payload(kind)),
        },
        MessageKind::PrepareStaticImage => match decode_static_images(payload.as_slice()) {
            Ok(v) => {
                let w = static_image_writes(&v);
                proof {
                    assert(lists_map(v@, static_images_of(payload@)->Some_0));
                }
                Dispatched::Persist(w)
            },
            Err(_) => Dispatched::Dropped(DecodeError::Payload(kind)),
        },
        MessageKind::PrepareConditionalImage => match decode_conditional_images(payload.as_slice()) {
            Ok(v) => {
                let w = conditional_image_writes(&v);
                proof {
                    assert(groups_well_formed(groups_view(v@)));
                }
                Dispatched::Persist(w)
            },
            Err(_) => Dispatched::Dropped(DecodeError::Payload(kind)),
        },
        MessageKind::RenderImage => match decode_render_data(payload.as_slice()) {
            Ok((config, values)) => submit_frame(RenderFrame { config, values }, guard),
            Err(_) => Dispatched::Dropped(DecodeError::Payload(kind)),
        },
    }
}

} // verus!
