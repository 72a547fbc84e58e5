use kenney_jam_2025::components::Entity;
use kenney_jam_2025::geometry::fraction;
use kenney_jam_2025::geometry::half;
use kenney_jam_2025::geometry::Vec2;
use kenney_jam_2025::level_elements::diamond_cross_layout;
use kenney_jam_2025::level_elements::diamond_pyramid_layout;
use kenney_jam_2025::level_elements::durability_for_group;
use kenney_jam_2025::level_elements::spawn_layout;
use kenney_jam_2025::level_elements::square_block_column_layout;
use kenney_jam_2025::level_elements::Placement;
use kenney_jam_2025::level_elements::spawn_diamond_cross;
use kenney_jam_2025::level_elements::spawn_diamond_pyramid;
use kenney_jam_2025::level_elements::spawn_square_block_column;
use kenney_jam_2025::level_elements::DestructibleElement;
use kenney_jam_2025::level_elements::ElementDurability;
use kenney_jam_2025::level_elements::ElementShape;
use kenney_jam_2025::levels::level_1;
use kenney_jam_2025::levels::level_2;
use kenney_jam_2025::levels::level_3;
use kenney_jam_2025::levels::spawn_level;
use kenney_jam_2025::levels::SelectedLevel;
use kenney_jam_2025::sprites::Image;
use kenney_jam_2025::world::World;
use kenney_jam_2025::ColliderType;

fn position(block: &Entity<DestructibleElement>) -> (i32, i32) {
    (block.body.transform.translation.x, block.body.transform.translation.y)
}

fn durability(block: &Entity<DestructibleElement>) -> ElementDurability {
    block.marker.element_durability
}

fn shape(block: &Entity<DestructibleElement>) -> ElementShape {
    match block.body.sprite.unwrap().image {
        Image::Element(_, shape) => shape,
        other => panic!("not a block: {:?}", other),
    }
}

#[test]
fn fraction_rounds_down() {
    assert_eq!(fraction(22500, 1, 4), 5625);
    assert_eq!(fraction(22500, 3, 4), 16875);
    assert_eq!(fraction(3, 1, 4), 0);
    assert_eq!(fraction(3, 1, 2), 1);
    assert_eq!(fraction(3, 3, 4), 2);
    assert_eq!(fraction(-3, 1, 4), -1);
    assert_eq!(fraction(-3, 1, 2), -2);
    assert_eq!(fraction(-3, 3, 4), -3);
    assert_eq!(fraction(-4, 1, 4), -1);
    assert_eq!(fraction(0, 3, 4), 0);
    assert_eq!(fraction(i32::MAX, 4, 4), i32::MAX);
    assert_eq!(fraction(i32::MIN, 4, 4), i32::MIN);
    assert_eq!(fraction(i32::MIN, 1, 2), -1073741824);
    assert_eq!(fraction(i32::MAX, 1, 2), 1073741823);
}

#[test]
fn half_rounds_down() {
    assert_eq!(half(7), 3);
    assert_eq!(half(8), 4);
    assert_eq!(half(0), 0);
    assert_eq!(half(-1), -1);
    assert_eq!(half(-7), -4);
    assert_eq!(half(-8), -4);
    assert_eq!(half(i64::MIN), i64::MIN / 2);
    assert_eq!(half(i64::MAX), i64::MAX / 2);
}

#[test]
fn column_has_five_squares_of_rising_durability() {
    let mut world = World::new();
    spawn_square_block_column(-35000, -10000, 7500, &mut world);
    let column = &world.destructible_elements;
    assert_eq!(column.len(), 5);
    assert_eq!(world.indestructible_elements.len(), 0);
    assert_eq!(world.next_id, 5);
    let expected = [
        (ElementDurability::Lowest, -10000),
        (ElementDurability::Low, -2500),
        (ElementDurability::Medium, 5000),
        (ElementDurability::High, 12500),
        (ElementDurability::Highest, 20000),
    ];
    for (index, block) in column.iter().enumerate() {
        assert_eq!(block.id, index as u64);
        assert_eq!(durability(block), expected[index].0);
        assert_eq!(position(block), (-35000, expected[index].1));
        assert_eq!(shape(block), ElementShape::Square);
        assert_eq!(block.body.add_collider.unwrap().collider_type, ColliderType::Rectangle);
    }
}

#[test]
fn column_rises_for_any_positive_spacing() {
    for spacing in [1, 2, 99, 7500, 400000000] {
        let mut world = World::new();
        spawn_square_block_column(12, -1000, spacing, &mut world);
        let column = &world.destructible_elements;
        assert_eq!(column.len(), 5);
        for pair in column.windows(2) {
            assert!(position(&pair[0]).1 < position(&pair[1]).1);
            assert!(durability(&pair[0]) < durability(&pair[1]));
            assert_eq!(position(&pair[1]).1 - position(&pair[0]).1, spacing);
        }
    }
}

#[test]
fn column_with_negative_spacing_hangs_down() {
    let mut world = World::new();
    spawn_square_block_column(0, 0, -10, &mut world);
    let ys: Vec<i32> = world.destructible_elements.iter().map(|b| position(b).1).collect();
    assert_eq!(ys, vec![0, -10, -20, -30, -40]);
}

#[test]
fn cross_spans_its_box() {
    let mut world = World::new();
    spawn_diamond_cross(Vec2::new(-30000, -6650), Vec2::new(20000, 22500), &mut world);
    let cross = &world.destructible_elements;
    assert_eq!(cross.len(), 9);
    assert_eq!(world.next_id, 9);
    let expected = [
        (ElementDurability::Lowest, (-30000, -6650)),
        (ElementDurability::Lowest, (-10000, -6650)),
        (ElementDurability::Low, (-25000, -1025)),
        (ElementDurability::Low, (-15000, -1025)),
        (ElementDurability::Medium, (-20000, 4600)),
        (ElementDurability::High, (-25000, 10225)),
        (ElementDurability::High, (-15000, 10225)),
        (ElementDurability::Highest, (-30000, 15850)),
        (ElementDurability::Highest, (-10000, 15850)),
    ];
    for (index, block) in cross.iter().enumerate() {
        assert_eq!(durability(block), expected[index].0, "block {}", index);
        assert_eq!(position(block), expected[index].1, "block {}", index);
        assert_eq!(shape(block), ElementShape::Diamond);
        assert_eq!(block.body.add_collider.unwrap().collider_type, ColliderType::Diamond);
    }
}

#[test]
fn cross_corners_and_centre() {
    for (corner, dimensions) in [
        (Vec2::new(0, 0), Vec2::new(400, 800)),
        (Vec2::new(-123, 456), Vec2::new(10, 6)),
        (Vec2::new(1000, -1000), Vec2::new(0, 0)),
        (Vec2::new(7, 7), Vec2::new(2, 2)),
    ] {
        let mut world = World::new();
        spawn_diamond_cross(corner, dimensions, &mut world);
        let cross = &world.destructible_elements;
        let lowest: Vec<(i32, i32)> = cross
            .iter()
            .filter(|block| durability(block) == ElementDurability::Lowest)
            .map(position)
            .collect();
        assert_eq!(lowest, vec![(corner.x, corner.y), (corner.x + dimensions.x, corner.y)]);
        let highest: Vec<(i32, i32)> = cross
            .iter()
            .filter(|block| durability(block) == ElementDurability::Highest)
            .map(position)
            .collect();
        assert_eq!(
            highest,
            vec![
                (corner.x, corner.y + dimensions.y),
                (corner.x + dimensions.x, corner.y + dimensions.y)
            ]
        );
        let medium: Vec<(i32, i32)> = cross
            .iter()
            .filter(|block| durability(block) == ElementDurability::Medium)
            .map(position)
            .collect();
        assert_eq!(medium, vec![(corner.x + dimensions.x / 2, corner.y + dimensions.y / 2)]);
    }
}

#[test]
fn cross_on_an_odd_box_rounds_down() {
    let mut world = World::new();
    spawn_diamond_cross(Vec2::new(10, 20), Vec2::new(3, 7), &mut world);
    let positions: Vec<(i32, i32)> = world.destructible_elements.iter().map(position).collect();
    assert_eq!(
        positions,
        vec![
            (10, 20),
            (13, 20),
            (10, 21),
            (12, 21),
            (11, 23),
            (10, 25),
            (12, 25),
            (10, 27),
            (13, 27)
        ]
    );
}

#[test]
fn cross_on_a_box_that_opens_to_the_lower_left() {
    let mut world = World::new();
    spawn_diamond_cross(Vec2::new(0, 0), Vec2::new(-3, -8), &mut world);
    let positions: Vec<(i32, i32)> = world.destructible_elements.iter().map(position).collect();
    assert_eq!(
        positions,
        vec![(0, 0), (-3, 0), (-1, -2), (-3, -2), (-2, -4), (-1, -6), (-3, -6), (0, -8), (-3, -8)]
    );
}

#[test]
fn pyramid_rows_widen_and_narrow() {
    let mut world = World::new();
    spawn_diamond_pyramid(-10000, 6000, 9, &mut world);
    let blocks = &world.destructible_elements;
    assert_eq!(blocks.len(), 25);
    let mut next = 0;
    for row in 0..9i32 {
        let count = std::cmp::min(row + 1, 9 - row);
        let group = row / 2;
        let expected_durability = match group {
            0 => ElementDurability::Lowest,
            1 => ElementDurability::Low,
            2 => ElementDurability::Medium,
            3 => ElementDurability::High,
            _ => ElementDurability::Highest,
        };
        for index in 0..count {
            let block = &blocks[next];
            assert_eq!(
                position(block),
                (-(count - 1) * 3000 + index * 6000, -10000 + row * 3000),
                "row {} block {}",
                row,
                index
            );
            assert_eq!(durability(block), expected_durability);
            assert_eq!(shape(block), ElementShape::Diamond);
            next += 1;
        }
    }
    assert_eq!(next, 25);
}

#[test]
fn pyramid_of_one_row_is_one_block() {
    let mut world = World::new();
    spawn_diamond_pyramid(50, 7, 1, &mut world);
    assert_eq!(world.destructible_elements.len(), 1);
    assert_eq!(position(&world.destructible_elements[0]), (0, 50));
    assert_eq!(durability(&world.destructible_elements[0]), ElementDurability::Lowest);
}

#[test]
fn pyramid_with_an_odd_delta_rounds_down() {
    let mut world = World::new();
    spawn_diamond_pyramid(0, 5, 3, &mut world);
    let positions: Vec<(i32, i32)> = world.destructible_elements.iter().map(position).collect();
    // rows of 1, 2 and 1 blocks; half of 5 is rounded down to 2, half of -5 to -3
    assert_eq!(positions, vec![(0, 0), (-3, 2), (2, 2), (0, 5)]);
}

#[test]
fn pyramid_durability_stays_at_the_highest() {
    assert_eq!(durability_for_group(0), ElementDurability::Lowest);
    assert_eq!(durability_for_group(1), ElementDurability::Low);
    assert_eq!(durability_for_group(2), ElementDurability::Medium);
    assert_eq!(durability_for_group(3), ElementDurability::High);
    assert_eq!(durability_for_group(4), ElementDurability::Highest);
    assert_eq!(durability_for_group(5), ElementDurability::Highest);
    assert_eq!(durability_for_group(u16::MAX), ElementDurability::Highest);

    let mut world = World::new();
    spawn_diamond_pyramid(0, 2, 13, &mut world);
    let top = world.destructible_elements.last().unwrap();
    assert_eq!(durability(top), ElementDurability::Highest);
    assert_eq!(world.destructible_elements.len(), 49);
}

#[test]
fn first_level_is_six_columns() {
    let mut world = World::new();
    level_1::spawn_level(&mut world);
    let blocks = &world.destructible_elements;
    assert_eq!(blocks.len(), 30);
    for column in 0..6usize {
        for row in 0..5usize {
            let block = &blocks[column * 5 + row];
            assert_eq!(
                position(block),
                (-35000 + 15000 * column as i32, -10000 + 7500 * row as i32)
            );
            assert_eq!(shape(block), ElementShape::Square);
        }
    }
    assert_eq!(position(&blocks[29]), (40000, 20000));
}

#[test]
fn second_level_is_three_columns_and_crosses() {
    let mut world = World::new();
    level_2::spawn_level(&mut world);
    let blocks = &world.destructible_elements;
    assert_eq!(blocks.len(), 69);
    for pass in 0..3usize {
        let first = pass * 23;
        assert_eq!(position(&blocks[first]), (-40000 + 40000 * pass as i32, -10000));
        assert_eq!(shape(&blocks[first]), ElementShape::Square);
        assert_eq!(position(&blocks[first + 4]), (-40000 + 40000 * pass as i32, 20000));
        // left cross
        assert_eq!(position(&blocks[first + 5]), (-30000, -6650));
        assert_eq!(shape(&blocks[first + 5]), ElementShape::Diamond);
        assert_eq!(position(&blocks[first + 9]), (-20000, 4600));
        assert_eq!(position(&blocks[first + 13]), (-10000, 15850));
        // right cross
        assert_eq!(position(&blocks[first + 14]), (10000, -6650));
        assert_eq!(position(&blocks[first + 18]), (20000, 4600));
        assert_eq!(position(&blocks[first + 22]), (30000, 15850));
    }
}

#[test]
fn third_level_is_a_pyramid() {
    let mut world = World::new();
    level_3::spawn_level(&mut world);
    let blocks = &world.destructible_elements;
    assert_eq!(blocks.len(), 25);
    assert_eq!(position(&blocks[0]), (0, -10000));
    // the middle row has five blocks
    assert_eq!(position(&blocks[10]), (-12000, 2000));
    assert_eq!(position(&blocks[14]), (12000, 2000));
    assert_eq!(durability(&blocks[10]), ElementDurability::Medium);
    assert_eq!(position(&blocks[24]), (0, 14000));
    assert_eq!(durability(&blocks[24]), ElementDurability::Highest);
}

#[test]
fn levels_are_spawned_by_their_number() {
    let sizes = [
        (SelectedLevel::Level1, 30),
        (SelectedLevel::Level2, 69),
        (SelectedLevel::Level3, 25),
        (SelectedLevel::Level4, 0),
        (SelectedLevel::Level5, 0),
    ];
    for (level, size) in sizes {
        let mut world = World::new();
        spawn_level(level, &mut world);
        assert_eq!(world.destructible_elements.len(), size);
        assert_eq!(world.indestructible_elements.len(), 0);
        assert_eq!(world.next_id, size as u64);
    }
}

#[test]
fn layouts_are_appended_to_what_exists() {
    let mut world = World::new();
    spawn_square_block_column(0, 0, 10, &mut world);
    spawn_diamond_cross(Vec2::new(0, 0), Vec2::new(4, 4), &mut world);
    assert_eq!(world.destructible_elements.len(), 14);
    let ids: Vec<u64> = world.destructible_elements.iter().map(|block| block.id).collect();
    assert_eq!(ids, (0..14).collect::<Vec<u64>>());
    assert_eq!(shape(&world.destructible_elements[4]), ElementShape::Square);
    assert_eq!(shape(&world.destructible_elements[5]), ElementShape::Diamond);
}

#[test]
fn column_layout_lists_its_placements() {
    let layout = square_block_column_layout(100, 200, 30);
    assert_eq!(
        layout,
        vec![
            Placement {
                durability: ElementDurability::Lowest,
                shape: ElementShape::Square,
                position: Vec2::new(100, 200)
            },
            Placement {
                durability: ElementDurability::Low,
                shape: ElementShape::Square,
                position: Vec2::new(100, 230)
            },
            Placement {
                durability: ElementDurability::Medium,
                shape: ElementShape::Square,
                position: Vec2::new(100, 260)
            },
            Placement {
                durability: ElementDurability::High,
                shape: ElementShape::Square,
                position: Vec2::new(100, 290)
            },
            Placement {
                durability: ElementDurability::Highest,
                shape: ElementShape::Square,
                position: Vec2::new(100, 320)
            },
        ]
    );
    // the same parameters give the same layout
    assert_eq!(layout, square_block_column_layout(100, 200, 30));
}

#[test]
fn column_layout_reaches_the_edge_of_the_grid() {
    let layout = square_block_column_layout(0, i32::MAX - 4, 1);
    assert_eq!(layout[4].position, Vec2::new(0, i32::MAX));
    let layout = square_block_column_layout(0, i32::MIN + 8, -2);
    assert_eq!(layout[4].position, Vec2::new(0, i32::MIN));
}

#[test]
fn cross_layout_lists_its_placements() {
    let layout = diamond_cross_layout(Vec2::new(0, 0), Vec2::new(400, 800));
    let listed: Vec<(ElementDurability, ElementShape, i32, i32)> = layout
        .iter()
        .map(|p| (p.durability, p.shape, p.position.x, p.position.y))
        .collect();
    assert_eq!(
        listed,
        vec![
            (ElementDurability::Lowest, ElementShape::Diamond, 0, 0),
            (ElementDurability::Lowest, ElementShape::Diamond, 400, 0),
            (ElementDurability::Low, ElementShape::Diamond, 100, 200),
            (ElementDurability::Low, ElementShape::Diamond, 300, 200),
            (ElementDurability::Medium, ElementShape::Diamond, 200, 400),
            (ElementDurability::High, ElementShape::Diamond, 100, 600),
            (ElementDurability::High, ElementShape::Diamond, 300, 600),
            (ElementDurability::Highest, ElementShape::Diamond, 0, 800),
            (ElementDurability::Highest, ElementShape::Diamond, 400, 800),
        ]
    );
    let wide = diamond_cross_layout(Vec2::new(i32::MIN, i32::MIN), Vec2::new(-1, -1));
    assert_eq!(wide.len(), 9);
    let far = diamond_cross_layout(Vec2::new(0, 0), Vec2::new(i32::MAX, i32::MAX));
    assert_eq!(far[4].position, Vec2::new(1073741823, 1073741823));
    assert_eq!(far[6].position, Vec2::new(1610612735, 1610612735));
    assert_eq!(far[8].position, Vec2::new(i32::MAX, i32::MAX));
}

#[test]
fn pyramid_layout_lists_its_rows() {
    let layout = diamond_pyramid_layout(0, 10, 5);
    let listed: Vec<(ElementDurability, i32, i32)> =
        layout.iter().map(|p| (p.durability, p.position.x, p.position.y)).collect();
    assert_eq!(
        listed,
        vec![
            (ElementDurability::Lowest, 0, 0),
            (ElementDurability::Lowest, -5, 5),
            (ElementDurability::Lowest, 5, 5),
            (ElementDurability::Low, -10, 10),
            (ElementDurability::Low, 0, 10),
            (ElementDurability::Low, 10, 10),
            (ElementDurability::Low, -5, 15),
            (ElementDurability::Low, 5, 15),
            (ElementDurability::Medium, 0, 20),
        ]
    );
    for placement in layout.iter() {
        assert_eq!(placement.shape, ElementShape::Diamond);
    }
}

#[test]
fn pyramid_layout_with_a_negative_delta_is_mirrored() {
    let layout = diamond_pyramid_layout(0, -10, 3);
    let listed: Vec<(i32, i32)> = layout.iter().map(|p| (p.position.x, p.position.y)).collect();
    assert_eq!(listed, vec![(0, 0), (5, -5), (-5, -5), (0, -10)]);
}

#[test]
fn a_layout_is_spawned_block_by_block() {
    let layout = vec![
        Placement {
            durability: ElementDurability::High,
            shape: ElementShape::Pentagon,
            position: Vec2::new(1, 2),
        },
        Placement {
            durability: ElementDurability::Indestructible,
            shape: ElementShape::Rectangle,
            position: Vec2::new(3, 4),
        },
        Placement {
            durability: ElementDurability::Lowest,
            shape: ElementShape::Square,
            position: Vec2::new(5, 6),
        },
    ];
    let mut world = World::new();
    spawn_layout(&layout, &mut world);
    assert_eq!(world.next_id, 3);
    let blocks: Vec<(u64, ElementDurability, (i32, i32))> = world
        .destructible_elements
        .iter()
        .map(|block| (block.id, durability(block), position(block)))
        .collect();
    assert_eq!(
        blocks,
        vec![(0, ElementDurability::High, (1, 2)), (2, ElementDurability::Lowest, (5, 6))]
    );
    assert_eq!(world.indestructible_elements.len(), 1);
    assert_eq!(world.indestructible_elements[0].id, 1);
    assert_eq!(world.indestructible_elements[0].body.transform.translation, Vec2::new(3, 4));

    spawn_layout(&Vec::new(), &mut world);
    assert_eq!(world.next_id, 3);
}
