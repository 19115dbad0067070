use miniaturs::infra::image_caching::ImageResize;
use miniaturs::infra::image_manipulation::{
    apply_operation, unsigned_magnitude, Operation, Operations, OperationsRunner,
    SingletonOperationsRunner,
};
use miniaturs::infra::images::{room_for, DecodedImage};

#[test]
fn test_operations_build_nothing() {
    let r = Operations::build(&None);
    assert!(r.0.is_empty());
}

#[test]
fn test_operations_build_resize() {
    let r = Operations::build(&Some(ImageResize {
        target_width: 1,
        target_height: 2,
    }));
    assert_eq!(
        Operation::Resize {
            width: 1,
            height: 2
        },
        r.0[0]
    );
}

#[test]
fn test_operations_build_resize_with_flips() {
    let r = Operations::build(&Some(ImageResize {
        target_width: -3,
        target_height: -4,
    }));
    assert_eq!(
        Operation::Resize {
            width: 3,
            height: 4
        },
        r.0[0]
    );
    assert_eq!(Operation::FlipHorizontally, r.0[1]);
    assert_eq!(Operation::FlipVertically, r.0[2]);
}

#[test]
fn build_gives_the_resize_first_then_the_flips() {
    let build = |w: i32, h: i32| {
        Operations::build(&Some(ImageResize {
            target_width: w,
            target_height: h,
        }))
        .0
    };
    assert_eq!(
        vec![Operation::Resize { width: 3, height: 4 }, Operation::FlipVertically],
        build(3, -4)
    );
    assert_eq!(
        vec![
            Operation::Resize { width: 3, height: 4 },
            Operation::FlipHorizontally,
            Operation::FlipVertically
        ],
        build(-3, -4)
    );
    assert_eq!(
        vec![Operation::Resize { width: 3, height: 4 }, Operation::FlipHorizontally],
        build(-3, 4)
    );
    assert_eq!(vec![Operation::Resize { width: 0, height: 0 }], build(0, 0));
    assert_eq!(vec![Operation::Resize { width: 3, height: 4 }], build(3, 4));
}

#[test]
fn build_takes_the_most_negative_size() {
    let r = Operations::build(&Some(ImageResize {
        target_width: i32::MIN,
        target_height: i32::MAX,
    }));
    assert_eq!(
        vec![
            Operation::Resize {
                width: 2147483648,
                height: 2147483647
            },
            Operation::FlipHorizontally
        ],
        r.0
    );
    assert_eq!(2147483648, unsigned_magnitude(i32::MIN));
    assert_eq!(0, unsigned_magnitude(0));
    assert_eq!(7, unsigned_magnitude(-7));
    assert_eq!(7, unsigned_magnitude(7));
}

#[test]
fn operations_runner_gives_the_size_asked_for() {
    let image = DecodedImage::blank(300, 200).unwrap();
    let operations = Operations::build(&Some(ImageResize {
        target_width: -3,
        target_height: -4,
    }));
    let result = SingletonOperationsRunner.run(image, &operations).unwrap();
    assert_eq!(3, result.width());
    assert_eq!(4, result.height());
    for (width, height) in [(1, 1), (300, 200), (200, 300), (640, 7), (1, 999)] {
        let image = DecodedImage::blank(300, 200).unwrap();
        let operations = Operations(vec![Operation::Resize { width, height }]);
        let result = SingletonOperationsRunner.run(image, &operations).unwrap();
        assert_eq!((width, height), (result.width(), result.height()));
    }
}

#[test]
fn test_operations_runner_no_resize() {
    let image = DecodedImage::blank(37, 21).unwrap();
    let operations = Operations::build(&Some(ImageResize {
        target_width: 0,
        target_height: 0,
    }));
    let result = SingletonOperationsRunner.run(image, &operations).unwrap();
    assert_eq!(37, result.width());
    assert_eq!(21, result.height());
}

#[test]
fn a_zero_keeps_the_size_on_its_axis_only() {
    let image = DecodedImage::blank(100, 50).unwrap();
    let result = apply_operation(image, &Operation::Resize { width: 0, height: 10 }).unwrap();
    assert_eq!(100, result.width());
    assert_eq!(10, result.height());
    let image = DecodedImage::blank(100, 50).unwrap();
    let result = apply_operation(image, &Operation::Resize { width: 10, height: 0 }).unwrap();
    assert_eq!(10, result.width());
    assert_eq!(50, result.height());
    // An image that is empty on an axis stays empty on it.
    let image = DecodedImage::blank(0, 50).unwrap();
    let result = apply_operation(image, &Operation::Resize { width: 0, height: 10 }).unwrap();
    assert_eq!((0, 10), (result.width(), result.height()));
}

#[test]
fn flips_keep_the_size() {
    let image = DecodedImage::blank(8, 5).unwrap();
    let image = apply_operation(image, &Operation::FlipHorizontally).unwrap();
    assert_eq!((8, 5), (image.width(), image.height()));
    let image = apply_operation(image, &Operation::FlipVertically).unwrap();
    assert_eq!((8, 5), (image.width(), image.height()));
}

#[test]
fn operations_runner_applies_the_operations_in_order() {
    let image = DecodedImage::blank(400, 100).unwrap();
    let operations = Operations(vec![
        Operation::Resize { width: 40, height: 40 },
        Operation::FlipVertically,
        Operation::Resize { width: 0, height: 5 },
    ]);
    let result = SingletonOperationsRunner.run(image, &operations).unwrap();
    // 400x100 becomes 40x40; a zero keeps the 40, the height becomes 5.
    assert_eq!(40, result.width());
    assert_eq!(5, result.height());
}

#[test]
fn operations_runner_with_nothing_to_do_hands_the_image_back() {
    let image = DecodedImage::blank(4, 3).unwrap();
    let result = SingletonOperationsRunner.run(image, &Operations(vec![])).unwrap();
    assert_eq!((4, 3), (result.width(), result.height()));
}

#[test]
fn a_resize_beyond_one_allocation_is_not_tried() {
    let image = DecodedImage::blank(2, 2).unwrap();
    let huge = Operation::Resize {
        width: u32::MAX,
        height: u32::MAX,
    };
    assert!(apply_operation(image, &huge).is_none());
    let image = DecodedImage::blank(2, 2).unwrap();
    let operations = Operations(vec![Operation::FlipHorizontally, huge]);
    assert!(SingletonOperationsRunner.run(image, &operations).is_none());
}

#[test]
fn blank_images_have_the_size_asked_for() {
    let image = DecodedImage::blank(0, 0).unwrap();
    assert_eq!((0, 0), (image.width(), image.height()));
    let image = DecodedImage::blank(1, 9).unwrap();
    assert_eq!((1, 9), (image.width(), image.height()));
    assert!(DecodedImage::blank(u32::MAX, u32::MAX).is_none());
    assert!(room_for(10000, 10000));
    assert!(!room_for(u32::MAX, u32::MAX));
    assert!(room_for(0, u32::MAX));
}
