use pet2d::SpriteBatch;

/// Four corners (TL, TR, BR, BL) of an 8x8 quad: position, uv, color.
type Vertex = ([f32; 2], [f32; 2], [f32; 4]);

fn sample_quad() -> [Vertex; 4] {
    let white = [1.0, 1.0, 1.0, 1.0];
    [
        ([0.0, 0.0], [0.0, 0.0], white),
        ([8.0, 0.0], [1.0, 0.0], white),
        ([8.0, 8.0], [1.0, 1.0], white),
        ([0.0, 8.0], [0.0, 1.0], white),
    ]
}

#[test]
fn adjacent_quads_with_the_same_texture_share_one_draw_group() {
    let mut batch = SpriteBatch::<u32, Vertex>::new();
    batch.push_quad(7, &sample_quad());
    batch.push_quad(7, &sample_quad());

    assert_eq!(batch.groups().len(), 1);
    assert_eq!(batch.vertices().len(), 8);
    assert_eq!(batch.indices().len(), 12);
}

#[test]
fn a_texture_change_starts_a_new_draw_group() {
    let mut batch = SpriteBatch::<u32, Vertex>::new();
    batch.push_quad(1, &sample_quad());
    batch.push_quad(2, &sample_quad());
    batch.push_quad(2, &sample_quad());

    let groups = batch.groups();
    assert_eq!(groups.len(), 2);
    assert_eq!((groups[0].start, groups[0].count), (0, 6));
    assert_eq!((groups[1].start, groups[1].count), (6, 12));
}

#[test]
fn submission_order_is_preserved_even_when_textures_interleave() {
    let mut batch = SpriteBatch::<u32, Vertex>::new();
    batch.push_quad(1, &sample_quad());
    batch.push_quad(2, &sample_quad());
    batch.push_quad(1, &sample_quad());

    // interleaved textures stay as three groups: reordering would break
    // painter's-algorithm transparency for overlapping sprites
    let textures: Vec<u32> = batch.groups().iter().map(|g| g.texture).collect();
    assert_eq!(textures, [1, 2, 1]);
}

#[test]
fn push_vertices_rebases_indices_onto_the_batch() {
    let mut batch = SpriteBatch::new();
    batch.push_quad(7, &sample_quad());
    batch.push_vertices(
        7,
        &[
            sample_quad()[0],
            sample_quad()[1],
            sample_quad()[2],
            sample_quad()[3],
            sample_quad()[0],
        ],
        &[0, 1, 2, 0, 2, 3, 0, 3, 4],
    );

    // the fan continues the same texture group, with indices shifted by
    // the four vertices already queued for the quad
    assert_eq!(batch.groups().len(), 1);
    assert_eq!(batch.groups()[0].count, 15);
    assert_eq!(&batch.indices()[6..], &[4, 5, 6, 4, 6, 7, 4, 7, 8]);
}

#[test]
fn clear_resets_vertices_indices_and_groups() {
    let mut batch = SpriteBatch::<u32, Vertex>::new();
    batch.push_quad(7, &sample_quad());
    batch.clear();

    assert!(batch.is_empty());
    assert!(batch.groups().is_empty());
    assert_eq!(batch.indices().len(), 0);

    // after a clear the next push starts from zero again
    batch.push_quad(7, &sample_quad());
    assert_eq!(batch.groups().len(), 1);
    assert_eq!((batch.groups()[0].start, batch.groups()[0].count), (0, 6));
}

#[test]
fn quad_indices_are_two_triangles_rebased_per_quad() {
    let mut batch = SpriteBatch::<u32, Vertex>::new();
    batch.push_quad(3, &sample_quad());
    batch.push_quad(4, &sample_quad());
    assert_eq!(batch.indices(), &[0, 1, 2, 0, 2, 3, 4, 5, 6, 4, 6, 7]);
    assert_eq!(batch.vertices().len(), 8);
    assert_eq!(batch.vertices()[4], sample_quad()[0]);
}
