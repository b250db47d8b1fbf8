use bevy_vox::document::{Model, Rgba, Voxel, VoxelDocument, PALETTE_SIZE};
use bevy_vox::label::palette_label;
use bevy_vox::scene::{build_instance, build_scene, Instance, ModelNode, Scene, CUBE_LABEL, CUBE_SIDE};
use bevy_vox::transform::{place, VoxelTransform};

fn white_palette() -> Vec<Rgba> {
    vec![Rgba { r: 255, g: 255, b: 255, a: 255 }; PALETTE_SIZE]
}

fn at(x: u8, y: u8, z: u8, i: u8) -> Voxel {
    Voxel { x, y, z, i }
}

fn total_instances(scene: &Scene) -> usize {
    scene.nodes.iter().map(|node| node.children.len()).sum()
}

fn total_voxels(doc: &VoxelDocument) -> usize {
    doc.models.iter().map(|model| model.voxels.len()).sum()
}

#[test]
fn transform_from_voxel_keeps_the_coordinate() {
    assert_eq!(VoxelTransform::from(at(1, 2, 3, 77)), VoxelTransform { x: 1, y: 2, z: 3 });
    assert_eq!(VoxelTransform::from(at(0, 255, 0, 0)), VoxelTransform { x: 0, y: 255, z: 0 });
}

#[test]
fn transform_converts_through_into() {
    let transform: VoxelTransform = at(9, 8, 7, 6).into();
    assert_eq!(transform, VoxelTransform { x: 9, y: 8, z: 7 });
}

#[test]
fn swap_exchanges_second_and_third_axis() {
    let mut transform = VoxelTransform { x: 1, y: 2, z: 3 };
    transform.swap_yz();
    assert_eq!(transform, VoxelTransform { x: 1, y: 3, z: 2 });
}

#[test]
fn swapping_twice_changes_nothing() {
    for x in [0u8, 1, 128, 255] {
        for y in [0u8, 7, 255] {
            for z in [0u8, 9, 254] {
                let start = VoxelTransform { x, y, z };
                let mut transform = start;
                transform.swap_yz();
                transform.swap_yz();
                assert_eq!(transform, start);
            }
        }
    }
}

#[test]
fn placement_without_swap_is_the_grid_coordinate() {
    assert_eq!(place(at(1, 2, 3, 1), false), VoxelTransform { x: 1, y: 2, z: 3 });
    assert_eq!(place(at(0, 0, 0, 1), false), VoxelTransform { x: 0, y: 0, z: 0 });
}

#[test]
fn placement_with_swap_exchanges_y_and_z() {
    assert_eq!(place(at(1, 2, 3, 1), true), VoxelTransform { x: 1, y: 3, z: 2 });
    assert_eq!(place(at(255, 0, 254, 1), true), VoxelTransform { x: 255, y: 254, z: 0 });
}

#[test]
fn swapped_placement_swapped_again_is_the_plain_placement() {
    let voxel = at(10, 20, 30, 4);
    let mut transform = place(voxel, true);
    transform.swap_yz();
    assert_eq!(transform, place(voxel, false));
}

#[test]
fn cube_is_one_unit_wide_and_labelled_cube() {
    assert_eq!(CUBE_LABEL, "cube");
    assert_eq!(CUBE_SIDE, 1);
}

#[test]
fn instance_names_cube_and_material_of_its_index() {
    assert_eq!(
        build_instance(at(4, 5, 6, 17), false),
        Instance {
            mesh: String::from("cube"),
            material: String::from("palette17"),
            transform: VoxelTransform { x: 4, y: 5, z: 6 },
        }
    );
    assert_eq!(
        build_instance(at(4, 5, 6, 255), true),
        Instance {
            mesh: String::from("cube"),
            material: String::from("palette255"),
            transform: VoxelTransform { x: 4, y: 6, z: 5 },
        }
    );
}

#[test]
fn scene_has_a_node_per_model_and_an_instance_per_voxel() {
    let doc = VoxelDocument {
        models: vec![
            Model { voxels: vec![at(0, 0, 0, 1), at(1, 0, 0, 2)] },
            Model { voxels: vec![] },
            Model { voxels: vec![at(5, 6, 7, 3)] },
        ],
        palette: white_palette(),
    };
    let scene = build_scene(&doc, false);
    assert_eq!(
        scene,
        Scene {
            nodes: vec![
                ModelNode {
                    transform: VoxelTransform { x: 0, y: 0, z: 0 },
                    children: vec![
                        Instance {
                            mesh: String::from("cube"),
                            material: String::from("palette1"),
                            transform: VoxelTransform { x: 0, y: 0, z: 0 },
                        },
                        Instance {
                            mesh: String::from("cube"),
                            material: String::from("palette2"),
                            transform: VoxelTransform { x: 1, y: 0, z: 0 },
                        },
                    ],
                },
                ModelNode { transform: VoxelTransform { x: 0, y: 0, z: 0 }, children: vec![] },
                ModelNode {
                    transform: VoxelTransform { x: 0, y: 0, z: 0 },
                    children: vec![Instance {
                        mesh: String::from("cube"),
                        material: String::from("palette3"),
                        transform: VoxelTransform { x: 5, y: 6, z: 7 },
                    }],
                },
            ],
        }
    );
}

#[test]
fn scene_keeps_the_order_of_the_voxels() {
    let voxels: Vec<Voxel> = (0..50u8).map(|k| at(k, 2 * k, 3 * k, k)).collect();
    let doc = VoxelDocument { models: vec![Model { voxels: voxels.clone() }], palette: white_palette() };
    let scene = build_scene(&doc, true);
    assert_eq!(scene.nodes.len(), 1);
    assert_eq!(scene.nodes[0].children.len(), voxels.len());
    for (instance, voxel) in scene.nodes[0].children.iter().zip(voxels.iter()) {
        assert_eq!(instance.transform, VoxelTransform { x: voxel.x, y: voxel.z, z: voxel.y });
        assert_eq!(instance.material, palette_label(voxel.i as usize));
        assert_eq!(instance.mesh, CUBE_LABEL);
    }
}

#[test]
fn instance_count_is_voxel_count() {
    let doc = VoxelDocument {
        models: vec![
            Model { voxels: (0..7u8).map(|k| at(k, 0, 0, 1)).collect() },
            Model { voxels: vec![] },
            Model { voxels: (0..200u8).map(|k| at(k, k, k, k)).collect() },
            Model { voxels: vec![at(0, 0, 0, 0)] },
        ],
        palette: white_palette(),
    };
    assert_eq!(total_voxels(&doc), 208);
    for swap_yz in [false, true] {
        let scene = build_scene(&doc, swap_yz);
        assert_eq!(scene.nodes.len(), doc.models.len());
        for (node, model) in scene.nodes.iter().zip(doc.models.iter()) {
            assert_eq!(node.children.len(), model.voxels.len());
        }
        assert_eq!(total_instances(&scene), 208);
    }
}

#[test]
fn scene_of_no_models_is_empty() {
    let doc = VoxelDocument { models: vec![], palette: white_palette() };
    assert_eq!(build_scene(&doc, false), Scene { nodes: vec![] });
    assert_eq!(build_scene(&doc, true), Scene { nodes: vec![] });
}

#[test]
fn instance_exists_even_where_the_palette_has_no_slot() {
    let doc = VoxelDocument { models: vec![Model { voxels: vec![at(1, 1, 1, 9)] }], palette: vec![] };
    let scene = build_scene(&doc, false);
    assert_eq!(total_instances(&scene), 1);
    assert_eq!(scene.nodes[0].children[0].material, "palette9");
}

#[test]
fn identity_moves_nothing() {
    assert_eq!(VoxelTransform::identity(), VoxelTransform { x: 0, y: 0, z: 0 });
}

#[test]
fn every_node_stands_at_the_origin() {
    let doc = VoxelDocument {
        models: vec![
            Model { voxels: vec![at(9, 9, 9, 1)] },
            Model { voxels: vec![] },
            Model { voxels: vec![at(200, 100, 50, 2), at(1, 2, 3, 4)] },
        ],
        palette: white_palette(),
    };
    for swap_yz in [false, true] {
        let scene = build_scene(&doc, swap_yz);
        assert_eq!(scene.nodes.len(), 3);
        for node in &scene.nodes {
            assert_eq!(node.transform, VoxelTransform::identity());
        }
    }
}
