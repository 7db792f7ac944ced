//! Messages and data transfer objects of the editor protocol.
use vstd::prelude::*;
use crate::editor::ids::{InstanceId, MaterialId, MeshId, RequestId, SceneVersion};

verus! {

/// Version of the editor JSON protocol.
pub const EDITOR_PROTOCOL_VERSION: u32 = 1;

/// Largest number of objects one scene page may hold.
pub const MAX_SCENE_PAGE_SIZE: u16 = 256;

/// Number of objects of a scene page when the client asks for no size.
pub const DEFAULT_SCENE_PAGE_SIZE: u16 = 128;

/// Editor query that does not change the world.
#[derive(Clone, Debug)]
pub enum EditorQuery {
    GetCapabilities,
    GetSceneVersion,
    GetSelection,
    GetSceneObjects { offset: u32, limit: u16, expected_scene_version: Option<SceneVersion> },
    GetInstanceDetails { instance_id: InstanceId },
    GetMaterial { material_id: MaterialId },
}

/// Domain request sent by the web client.
#[derive(Clone, Debug)]
pub enum EditorRequest {
    Query(EditorQuery),
}

/// Complete message a WebSocket client sends.
#[derive(Clone, Debug)]
pub struct EditorClientMessage {
    pub protocol_version: u32,
    pub request_id: RequestId,
    pub request: EditorRequest,
}

/// Current submesh selection, as the web client understands it.
#[derive(Clone, Debug)]
pub struct SelectionDto {
    pub instance_id: InstanceId,
    pub submesh_index: u32,
    pub material_id: MaterialId,
}

/// Best-effort notification the renderer sends on its own.
#[derive(Clone, Debug)]
pub enum EditorNotification {
    SelectionChanged(Option<SelectionDto>),
    SceneVersionChanged(SceneVersion),
}

/// Capabilities the web client reads when it connects.
#[derive(Clone, Debug)]
pub struct EditorCapabilities {
    pub protocol_version: u32,
    pub max_scene_page_size: u16,
    pub editable_material_fields: Vec<String>,
}

/// Light summary of an instance in the scene object list.
#[derive(Clone, Debug)]
pub struct SceneObjectSummary {
    pub instance_id: InstanceId,
    pub name: String,
    pub material_count: u32,
}

/// Mesh referenced by an instance.
#[derive(Clone, Debug)]
pub struct MeshSummaryDto {
    pub mesh_id: MeshId,
    pub name: String,
}

/// One submesh/material binding of an instance.
#[derive(Clone, Debug)]
pub struct InstanceMaterialBindingDto {
    pub submesh_index: u32,
    pub material_id: MaterialId,
    pub name: String,
}

/// One page of the scene object list.
#[derive(Clone, Debug)]
pub struct SceneObjectsPage {
    pub scene_version: SceneVersion,
    pub objects: Vec<SceneObjectSummary>,
    pub next_offset: Option<u32>,
}

} // verus!
