//! Decoding of what the server sends, through bincode and the message types
//! of `sensor_core`.
use crate::assets::{blob_map, blobs_view, distinct_names, Blobs};
use std::collections::HashMap;
use vstd::prelude::*;

verus! {

#[verifier::external_type_specification]
#[verifier::external_body]
pub struct ExBincodeErrorKind(bincode::ErrorKind);

#[verifier::external_type_specification]
#[verifier::external_body]
pub struct ExDisplayConfig(sensor_core::DisplayConfig);

#[verifier::external_type_specification]
#[verifier::external_body]
pub struct ExSensorValue(sensor_core::SensorValue);

/// The tag of an envelope: which payload it carries.
#[derive(Clone, Copy, Debug, PartialEq, Eq, Structural)]
pub enum MessageKind {
    PrepareText,
    PrepareStaticImage,
    PrepareConditionalImage,
    RenderImage,
}

/// Conditional images: element id → its named images.
pub type ImageGroups = Vec<(String, Blobs)>;

/// The view of conditional images.
pub open spec fn groups_view(g: Seq<(String, Blobs)>) -> Seq<(Seq<char>, Seq<(Seq<char>, Seq<u8>)>)> {
    g.map_values(|e: (String, Blobs)| (e.0@, blobs_view(e.1@)))
}

/// The element id → (name → bytes) mapping that conditional images describe.
pub open spec fn group_map(g: Seq<(Seq<char>, Seq<(Seq<char>, Seq<u8>)>)>) -> Map<
    Seq<char>,
    Map<Seq<char>, Seq<u8>>,
>
    decreases g.len(),
{
    if g.len() == 0 {
        Map::empty()
    } else {
        group_map(g.drop_last()).insert(g.last().0, blob_map(g.last().1))
    }
}

/// Conditional images with one entry per element and one per image name.
pub open spec fn groups_well_formed(g: Seq<(Seq<char>, Seq<(Seq<char>, Seq<u8>)>)>) -> bool {
    &&& distinct_names(g)
    &&& forall|i: int| 0 <= i < g.len() ==> distinct_names(#[trigger] g[i].1)
}

/// Named blobs taken from a map: each key once, with its value.
pub open spec fn lists_map(b: Seq<(String, Vec<u8>)>, m: Map<Seq<char>, Seq<u8>>) -> bool {
    &&& distinct_names(blobs_view(b))
    &&& blob_map(blobs_view(b)) == m
}

/// The tag and payload of the envelope that bincode reads from `bytes`, if any.
pub uninterp spec fn envelope_of(bytes: Seq<u8>) -> Option<(MessageKind, Seq<u8>)>;

/// The font family → font bytes mapping of a text payload, if it decodes.
pub uninterp spec fn fonts_of(payload: Seq<u8>) -> Option<Map<Seq<char>, Seq<u8>>>;

/// The element id → image bytes mapping of a static-image payload, if it decodes.
pub uninterp spec fn static_images_of(payload: Seq<u8>) -> Option<Map<Seq<char>, Seq<u8>>>;

/// The element id → (name → image bytes) mapping of a conditional-image
/// payload, if it decodes.
pub uninterp spec fn conditional_images_of(payload: Seq<u8>) -> Option<
    Map<Seq<char>, Map<Seq<char>, Seq<u8>>>,
>;

/// Whether a render payload decodes.
pub uninterp spec fn render_data_decodes(payload: Seq<u8>) -> bool;

/// Relies on `bincode::deserialize` into `sensor_core::TransportMessage`: the
/// outcome depends on the bytes alone. The tag is mapped one to one.
#[verifier::external_body]
pub(crate) fn decode_envelope(bytes: &[u8]) -> (r: Result<(MessageKind, Vec<u8>), bincode::Error>)
    ensures
        match r {
            Ok(m) => envelope_of(bytes@) == Some((m.0, m.1@)),
            Err(_) => envelope_of(bytes@) is None,
        },
{
    let m: sensor_core::TransportMessage = bincode::deserialize(bytes)?;
    let kind = match m.transport_type {
        sensor_core::TransportType::PrepareText => MessageKind::PrepareText,
        sensor_core::TransportType::PrepareStaticImage => MessageKind::PrepareStaticImage,
        sensor_core::TransportType::PrepareConditionalImage => MessageKind::PrepareConditionalImage,
        sensor_core::TransportType::RenderImage => MessageKind::RenderImage,
    };
    Ok((kind, m.data))
}

/// Relies on `bincode::deserialize` into `sensor_core::PrepareTextData`: the
/// font map depends on the bytes alone.
#[verifier::external_body]
pub(crate) fn decode_fonts(payload: &[u8]) -> (r: Result<HashMap<String, Vec<u8>>, bincode::Error>)
    ensures
        match r {
            Ok(m) => fonts_of(payload@) == Some(m.deep_view()),
            Err(_) => fonts_of(payload@) is None,
        },
{
    let d: sensor_core::PrepareTextData = bincode::deserialize(payload)?;
    Ok(d.font_data)
}

/// Relies on `bincode::deserialize` into `sensor_core::PrepareStaticImageData`:
/// the map depends on the bytes alone; its entries are listed once each, in
/// the map's own order.
#[verifier::external_body]
pub(crate) fn decode_static_images(payload: &[u8]) -> (r: Result<Blobs, bincode::Error>)
    ensures
        match r {
            Ok(v) => static_images_of(payload@) is Some && lists_map(
                v@,
                static_images_of(payload@)->Some_0,
            ),
            Err(_) => static_images_of(payload@) is None,
        },
{
    let d: sensor_core::PrepareStaticImageData = bincode::deserialize(payload)?;
    Ok(d.images_data.into_iter().collect())
}

/// Relies on `bincode::deserialize` into
/// `sensor_core::PrepareConditionalImageData`: the nested map depends on the
/// bytes alone; its entries are listed once each, in the maps' own order.
#[verifier::external_body]
pub(crate) fn decode_conditional_images(payload: &[u8]) -> (r: Result<ImageGroups, bincode::Error>)
    ensures
        match r {
            Ok(v) => {
                &&& conditional_images_of(payload@) is Some
                &&& groups_well_formed(groups_view(v@))
                &&& group_map(groups_view(v@)) == conditional_images_of(payload@)->Some_0
            },
            Err(_) => conditional_images_of(payload@) is None,
        },
{
    let d: sensor_core::PrepareConditionalImageData = bincode::deserialize(payload)?;
    Ok(d.images_data.into_iter().map(|(id, imgs)| (id, imgs.into_iter().collect())).collect())
}

/// Relies on `bincode::deserialize` into `sensor_core::RenderData`, split
/// into its display configuration and its sensor values.
#[verifier::external_body]
pub(crate) fn decode_render_data(payload: &[u8]) -> (r: Result<
    (sensor_core::DisplayConfig, Vec<sensor_core::SensorValue>),
    bincode::Error,
>)
    ensures
        r is Ok <==> render_data_decodes(payload@),
{
    let d: sensor_core::RenderData = bincode::deserialize(payload)?;
    Ok((d.display_config, d.sensor_values))
}

} // verus!
