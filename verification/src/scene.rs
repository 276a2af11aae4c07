//! The live scene: the root of the object graph with the camera, the sky
//! and the configuration that a renderer reads beside it.

use vstd::prelude::*;
use std::sync::Arc;
use crate::hit_able::model::{Node, NodeView};
use crate::scalar::Scalar;
use crate::vector::{ColorRGB, Point3, Vector3};

verus! {

/// Settings of a rendering.
#[derive(Clone, Copy, Debug, PartialEq, Eq, Structural)]
pub struct Configuration {
    pub id: usize,
    pub maximum_depth: usize,
}

/// The camera, as the data that places it.
#[derive(Clone, Copy, Debug, PartialEq, Eq, Structural)]
pub struct Camera {
    pub id: usize,
    pub lower_left_corner: Point3,
    pub horizontal: Vector3,
    pub vertical: Vector3,
    pub origin: Point3,
    pub lense_radius: Scalar,
    pub time_from: Scalar,
    pub time_to: Scalar,
}

/// The sky, as the two colours it blends.
#[derive(Clone, Copy, Debug, PartialEq, Eq, Structural)]
pub struct Sky {
    pub id: usize,
    pub nadir_color: ColorRGB,
    pub zenith_color: ColorRGB,
}

/// A scene ready to be rendered.
#[derive(Clone, Debug, PartialEq, Eq)]
pub struct Scene {
    pub configuration: Configuration,
    pub camera: Camera,
    pub sky: Sky,
    pub root_node: Arc<Node>,
}

/// What a scene is: its four entry points, the graph written out as a tree.
pub struct SceneView {
    pub configuration: Configuration,
    pub camera: Camera,
    pub sky: Sky,
    pub root_node: NodeView,
}

impl View for Scene {
    type V = SceneView;

    open spec fn view(&self) -> SceneView {
        SceneView {
            configuration: self.configuration,
            camera: self.camera,
            sky: self.sky,
            root_node: self.root_node@,
        }
    }
}

impl Scene {
    /// The scene of the given parts.
    pub fn new(configuration: Configuration, camera: Camera, sky: Sky, root_node: Arc<Node>) -> (s:
        Scene)
        ensures
            s.configuration == configuration,
            s.camera == camera,
            s.sky == sky,
            s.root_node == root_node,
    {
        Scene { configuration, camera, sky, root_node }
    }
}

} // verus!
