//! Marker types for RIDs of server-internal resources that have no Godot class.

use vstd::prelude::*;

verus! {

/// Marker for RIDs returned by `RenderingServer::canvas_create()`.
#[derive(Copy, Clone, Debug, Eq, PartialEq, Hash)]
pub struct TagCanvas;

/// Marker for RIDs returned by `RenderingServer::scenario_create()`.
#[derive(Copy, Clone, Debug, Eq, PartialEq, Hash)]
pub struct TagScenario;

/// Marker for RIDs returned by `RenderingServer::instance_create()` and `instance_create2()`.
#[derive(Copy, Clone, Debug, Eq, PartialEq, Hash)]
pub struct TagInstance;

/// Marker for RIDs returned by `RenderingServer::skeleton_create()`.
#[derive(Copy, Clone, Debug, Eq, PartialEq, Hash)]
pub struct TagSkeleton;

/// Marker for RIDs returned by `RenderingServer::occluder_create()`.
#[derive(Copy, Clone, Debug, Eq, PartialEq, Hash)]
pub struct TagOccluder;

/// Marker for RIDs returned by `RenderingServer::lightmap_create()`.
#[derive(Copy, Clone, Debug, Eq, PartialEq, Hash)]
pub struct TagLightmap;

/// Marker for RIDs returned by `RenderingServer::compositor_create()`.
#[derive(Copy, Clone, Debug, Eq, PartialEq, Hash)]
pub struct TagCompositor;

/// Marker for RIDs returned by `RenderingServer::compositor_effect_create()`.
#[derive(Copy, Clone, Debug, Eq, PartialEq, Hash)]
pub struct TagCompositorEffect;

/// Marker for RIDs returned by `RenderingServer::viewport_create()`.
#[derive(Copy, Clone, Debug, Eq, PartialEq, Hash)]
pub struct TagViewportRid;

/// Marker for RIDs returned by `PhysicsServer2D::space_create()`.
#[derive(Copy, Clone, Debug, Eq, PartialEq, Hash)]
pub struct TagPhysicsSpace2D;

/// Marker for RIDs returned by `PhysicsServer2D::area_create()`.
#[derive(Copy, Clone, Debug, Eq, PartialEq, Hash)]
pub struct TagPhysicsArea2D;

/// Marker for RIDs returned by `PhysicsServer2D::body_create()`.
#[derive(Copy, Clone, Debug, Eq, PartialEq, Hash)]
pub struct TagPhysicsBody2D;

/// Marker for RIDs returned by `PhysicsServer2D::joint_create()`.
#[derive(Copy, Clone, Debug, Eq, PartialEq, Hash)]
pub struct TagPhysicsJoint2D;

/// Marker for RIDs returned by `PhysicsServer3D::space_create()`.
#[derive(Copy, Clone, Debug, Eq, PartialEq, Hash)]
pub struct TagPhysicsSpace3D;

/// Marker for RIDs returned by `PhysicsServer3D::area_create()`.
#[derive(Copy, Clone, Debug, Eq, PartialEq, Hash)]
pub struct TagPhysicsArea3D;

/// Marker for RIDs returned by `PhysicsServer3D::body_create()`.
#[derive(Copy, Clone, Debug, Eq, PartialEq, Hash)]
pub struct TagPhysicsBody3D;

/// Marker for RIDs returned by `PhysicsServer3D::soft_body_create()`.
#[derive(Copy, Clone, Debug, Eq, PartialEq, Hash)]
pub struct TagPhysicsSoftBody3D;

/// Marker for RIDs returned by `PhysicsServer3D::joint_create()`.
#[derive(Copy, Clone, Debug, Eq, PartialEq, Hash)]
pub struct TagPhysicsJoint3D;

/// Marker for RIDs returned by `NavigationServer::map_create()`.
#[derive(Copy, Clone, Debug, Eq, PartialEq, Hash)]
pub struct TagNavigationMap;

/// Marker for RIDs returned by `NavigationServer::region_create()`.
#[derive(Copy, Clone, Debug, Eq, PartialEq, Hash)]
pub struct TagNavigationRegion;

/// Marker for RIDs returned by `NavigationServer::link_create()`.
#[derive(Copy, Clone, Debug, Eq, PartialEq, Hash)]
pub struct TagNavigationLink;

/// Marker for RIDs returned by `NavigationServer::agent_create()`.
#[derive(Copy, Clone, Debug, Eq, PartialEq, Hash)]
pub struct TagNavigationAgent;

/// Marker for RIDs returned by `NavigationServer::obstacle_create()`.
#[derive(Copy, Clone, Debug, Eq, PartialEq, Hash)]
pub struct TagNavigationObstacle;

/// Marker for RIDs returned by `NavigationServer::source_geometry_parser_create()`.
#[derive(Copy, Clone, Debug, Eq, PartialEq, Hash)]
pub struct TagNavigationParser;

/// Marker for RIDs returned by `TextServer::create_shaped_text()`.
#[derive(Copy, Clone, Debug, Eq, PartialEq, Hash)]
pub struct TagShapedText;

/// Marker for RIDs returned by `DisplayServer::accessibility_create_element()`.
#[derive(Copy, Clone, Debug, Eq, PartialEq, Hash)]
pub struct TagAccessibilityElement;

} // verus!
