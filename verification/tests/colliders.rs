use kenney_jam_2025::colliders::add_colliders;
use kenney_jam_2025::colliders::build_collider;
use kenney_jam_2025::colliders::calculate_sprite_size;
use kenney_jam_2025::colliders::image_size;
use kenney_jam_2025::colliders::serve_collider;
use kenney_jam_2025::colliders::LoadedImage;
use kenney_jam_2025::components::AddCollider;
use kenney_jam_2025::components::Collider;
use kenney_jam_2025::components::Sprite;
use kenney_jam_2025::game::setup;
use kenney_jam_2025::geometry::Vec2;
use kenney_jam_2025::level_elements::spawn_element;
use kenney_jam_2025::level_elements::ElementDurability;
use kenney_jam_2025::level_elements::ElementShape;
use kenney_jam_2025::selection::selection_setup;
use kenney_jam_2025::sprites::Image;
use kenney_jam_2025::ColliderType;

fn request(collider_type: ColliderType) -> AddCollider {
    AddCollider { collider_scale: 100, collider_type }
}

#[test]
fn sprite_size_prefers_the_custom_size() {
    let mut sprite = Sprite::from_image(Image::Ball);
    assert_eq!(calculate_sprite_size(None, &sprite), Vec2::new(100, 100));
    assert_eq!(calculate_sprite_size(Some(Vec2::new(2200, 2300)), &sprite), Vec2::new(2200, 2300));
    sprite.custom_size = Some(Vec2::new(5500, 5500));
    assert_eq!(calculate_sprite_size(Some(Vec2::new(2200, 2300)), &sprite), Vec2::new(5500, 5500));
    assert_eq!(calculate_sprite_size(None, &sprite), Vec2::new(5500, 5500));
}

#[test]
fn loaded_images_are_found_by_their_key() {
    let images = vec![
        LoadedImage { image: Image::Ball, size: Vec2::new(2200, 2200) },
        LoadedImage { image: Image::PaddleBlue, size: Vec2::new(10400, 2400) },
        LoadedImage { image: Image::Ball, size: Vec2::new(1, 1) },
    ];
    assert_eq!(image_size(&images, Image::Ball), Some(Vec2::new(2200, 2200)));
    assert_eq!(image_size(&images, Image::PaddleBlue), Some(Vec2::new(10400, 2400)));
    assert_eq!(image_size(&images, Image::PaddleRed), None);
    assert_eq!(image_size(&Vec::new(), Image::Ball), None);
}

#[test]
fn each_kind_of_request_gets_its_shape() {
    let size = Vec2::new(6400, 3200);
    assert_eq!(build_collider(&request(ColliderType::NoCollider), size), None);
    assert_eq!(
        build_collider(&request(ColliderType::Circle), size),
        Some(Collider::Circle { radius: 3200 })
    );
    assert_eq!(
        build_collider(&request(ColliderType::Rectangle), size),
        Some(Collider::Rectangle { width: 6400, height: 3200 })
    );
    assert_eq!(
        build_collider(&request(ColliderType::Capsule), size),
        Some(Collider::Capsule { radius: 640, half_length: 2560 })
    );
    assert_eq!(
        build_collider(&request(ColliderType::RegularPolygon), size),
        Some(Collider::RegularPolygon { circumradius: 1760, sides: 5 })
    );
    assert_eq!(
        build_collider(&request(ColliderType::RoundedRectangle), size),
        Some(Collider::RoundRectangle { width: 6400, height: 3200, border_radius: 100 })
    );
    assert_eq!(
        build_collider(&request(ColliderType::Diamond), size),
        Some(Collider::ConvexHull { half_width: 3200, half_height: 1600 })
    );
}

#[test]
fn collider_scale_stretches_the_shape() {
    let size = Vec2::new(1000, 301);
    let half = AddCollider { collider_scale: 50, collider_type: ColliderType::Rectangle };
    assert_eq!(
        build_collider(&half, size),
        Some(Collider::Rectangle { width: 500, height: 150 })
    );
    let double = AddCollider { collider_scale: 200, collider_type: ColliderType::Circle };
    assert_eq!(build_collider(&double, size), Some(Collider::Circle { radius: 1000 }));
    let huge = AddCollider { collider_scale: i32::MAX, collider_type: ColliderType::Rectangle };
    assert_eq!(
        build_collider(&huge, Vec2::new(i32::MAX, i32::MIN)),
        Some(Collider::Rectangle { width: 46116860141324206, height: -46116860162799043 })
    );
}

#[test]
fn request_waits_for_its_image() {
    let mut world = setup();
    let paddle = world.paddle.unwrap();
    let waiting = serve_collider(paddle.body, &Vec::new());
    assert_eq!(waiting, paddle.body);

    let images = vec![LoadedImage { image: Image::PaddleBlue, size: Vec2::new(10400, 2400) }];
    let served = serve_collider(paddle.body, &images);
    assert_eq!(served.add_collider, None);
    assert_eq!(served.collider, Some(Collider::Capsule { radius: 1040, half_length: 4160 }));
    assert_eq!(served.sprite, paddle.body.sprite);
    assert_eq!(served.transform, paddle.body.transform);

    // a body that was served asks no more
    assert_eq!(serve_collider(served, &images), served);

    // the boundary below the paddle has its collider from the start
    let bottom = world.bottom_collider.unwrap().body;
    assert_eq!(serve_collider(bottom, &images), bottom);
    assert_eq!(bottom.collider, Some(Collider::Rectangle { width: 128000, height: 6000 }));

    add_colliders(&mut world, &images);
    assert_eq!(world.paddle.unwrap().body, served);
    assert_eq!(world.permanent_elements[0].body.collider, None);
    assert!(world.permanent_elements[0].body.add_collider.is_some());
}

#[test]
fn colliders_are_added_to_every_kind_of_entity() {
    let mut world = setup();
    selection_setup(&mut world);
    spawn_element(ElementDurability::Low, ElementShape::Diamond, Vec2::new(0, 0), &mut world);
    spawn_element(
        ElementDurability::Indestructible,
        ElementShape::Square,
        Vec2::new(0, 0),
        &mut world,
    );
    let images = vec![
        LoadedImage { image: Image::Border, size: Vec2::new(19000, 4900) },
        LoadedImage {
            image: Image::Element(ElementDurability::Low, ElementShape::Diamond),
            size: Vec2::new(4800, 4800),
        },
        LoadedImage {
            image: Image::Element(ElementDurability::Indestructible, ElementShape::Square),
            size: Vec2::new(3200, 3200),
        },
        LoadedImage {
            image: Image::GlossyPolygon(ElementDurability::Lowest),
            size: Vec2::new(4000, 4000),
        },
        LoadedImage {
            image: Image::GlossyPolygon(ElementDurability::Low),
            size: Vec2::new(4000, 4000),
        },
        LoadedImage { image: Image::SelectorOpen, size: Vec2::new(6000, 6000) },
        LoadedImage { image: Image::SelectorLocked, size: Vec2::new(6000, 6000) },
    ];
    add_colliders(&mut world, &images);

    for border in world.permanent_elements.iter() {
        assert_eq!(
            border.body.collider,
            Some(Collider::RoundRectangle { width: 19000, height: 4900, border_radius: 100 })
        );
        assert_eq!(border.body.add_collider, None);
    }
    assert_eq!(
        world.destructible_elements[0].body.collider,
        Some(Collider::ConvexHull { half_width: 2400, half_height: 2400 })
    );
    assert_eq!(
        world.indestructible_elements[0].body.collider,
        Some(Collider::Rectangle { width: 3200, height: 3200 })
    );
    // the open selector: a pentagon for the block, nothing for the outline
    assert_eq!(
        world.selector_blocks[0].body.collider,
        Some(Collider::RegularPolygon { circumradius: 2200, sides: 5 })
    );
    assert_eq!(world.selector_outlines[0].body.collider, None);
    assert_eq!(world.selector_outlines[0].body.add_collider, None);
    // the locked selector: nothing for the block, the outline by its custom size
    assert_eq!(world.selector_blocks[1].body.collider, None);
    assert_eq!(world.selector_blocks[1].body.add_collider, None);
    assert_eq!(
        world.selector_outlines[1].body.collider,
        Some(Collider::Rectangle { width: 5500, height: 5500 })
    );
    // the paddle's image has not arrived
    assert_eq!(world.paddle.unwrap().body.collider, None);
    assert!(world.paddle.unwrap().body.add_collider.is_some());
    // identifiers stay
    assert_eq!(world.selector_blocks[1].id, 7);
    assert_eq!(world.destructible_elements[0].id, 9);
    assert_eq!(world.next_id, 11);
}
