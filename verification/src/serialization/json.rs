//! Scenes as JSON text.

use vstd::prelude::*;
use crate::scene;
use crate::scene::SceneView;
use crate::serialization::decode::{decode_scene, scene_in};
use crate::serialization::encode::{encode_scene, scene_tree};
use crate::serialization::export::exported;
use crate::serialization::scene::{DeserializeOptions, Scene, Unreferenced};
use crate::serialization::error::{Malformation, SceneError};
use crate::serialization::resolve::loaded_with;
use crate::serialization::value::{
    document_tree, from_text, pretty_text, to_text, value_tree, JsonTree,
};

verus! {

/// The error for a value that holds no scene of records.
pub open spec fn misshapen() -> SceneError {
    SceneError::MalformedRecord { reason: Malformation::Shape }
}

/// The error for a text that is no JSON document.
pub open spec fn unreadable() -> SceneError {
    SceneError::MalformedRecord { reason: Malformation::Syntax }
}

/// The scene that a JSON tree stands for under the given options: the
/// scene of the records it holds.
pub open spec fn scene_of_tree(t: JsonTree, options: DeserializeOptions) -> Result<
    SceneView,
    SceneError,
> {
    match scene_in(t) {
        None => Err(misshapen()),
        Some(records) => loaded_with(records, options),
    }
}

/// The options that tolerate what can be tolerated.
pub open spec fn lenient() -> DeserializeOptions {
    DeserializeOptions { unreferenced: Unreferenced::Tolerate }
}

/// The live scene that the value stands for under the given options.
pub fn scene_from_value(value: &serde_json::Value, options: &DeserializeOptions) -> (r: Result<
    scene::Scene,
    SceneError,
>)
    ensures
        match scene_of_tree(value_tree(*value), *options) {
            Ok(s) => r matches Ok(x) && x@ == s,
            Err(e) => r matches Err(f) && f == e,
        },
{
    match decode_scene(value) {
        Some(records) => records.to_scene_with_options(options),
        None => Err(SceneError::MalformedRecord { reason: Malformation::Shape }),
    }
}

/// The live scene that the text stands for, read leniently.
pub fn deserialize_scene(scene_str: &str) -> (r: Result<scene::Scene, SceneError>)
    ensures
        match document_tree(scene_str@) {
            None => r matches Err(f) && f == unreadable(),
            Some(t) => match scene_of_tree(t, lenient()) {
                Ok(s) => r matches Ok(x) && x@ == s,
                Err(e) => r matches Err(f) && f == e,
            },
        },
{
    deserialize_scene_with_options(scene_str, &DeserializeOptions::default())
}

/// The live scene that the text stands for, read as strictly as the
/// options ask.
pub fn deserialize_scene_with_options(
    scene_str: &str,
    deserialize_options: &DeserializeOptions,
) -> (r: Result<scene::Scene, SceneError>)
    ensures
        match document_tree(scene_str@) {
            None => r matches Err(f) && f == unreadable(),
            Some(t) => match scene_of_tree(t, *deserialize_options) {
                Ok(s) => r matches Ok(x) && x@ == s,
                Err(e) => r matches Err(f) && f == e,
            },
        },
{
    match from_text(scene_str) {
        Ok(value) => scene_from_value(&value, deserialize_options),
        Err(_) => Err(SceneError::MalformedRecord { reason: Malformation::Syntax }),
    }
}

/// The outcome of an export, given what the printer made of the value:
/// its text, or the failure of the encoding.
pub fn printed(outcome: Result<String, serde_json::Error>) -> (r: Result<String, SceneError>)
    ensures
        match outcome {
            Ok(text) => r == Ok::<String, SceneError>(text),
            Err(_) => r == Err::<String, SceneError>(SceneError::EncodingFailure),
        },
{
    match outcome {
        Ok(text) => Ok(text),
        Err(_) => Err(SceneError::EncodingFailure),
    }
}

/// The text of the live scene: the pretty print of the JSON value that
/// holds its records. Where `serde_json` fails to print, the encoding has
/// failed.
pub fn serialize_scene(scene: &scene::Scene) -> (r: Result<String, SceneError>)
    ensures
        match pretty_text(scene_tree(exported(scene@))) {
            Some(t) => r matches Ok(text) && text@ == t,
            None => r matches Err(e) && e == SceneError::EncodingFailure,
        },
{
    let serialized_scene = match Scene::from_scene(scene) {
        Ok(s) => s,
        Err(_) => {
            return Err(SceneError::EncodingFailure);
        },
    };
    match encode_scene(&serialized_scene) {
        Some(value) => printed(to_text(&value)),
        None => Err(SceneError::EncodingFailure),
    }
}

} // verus!
