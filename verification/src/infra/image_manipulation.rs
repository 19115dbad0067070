//! The operations that a request asks for, and the engine that applies them
//! to a decoded image.

use crate::infra::image_caching::ImageResize;
use crate::infra::images::{
    flip_pixels_horizontally, flip_pixels_vertically, resize_has_room, resize_pixels, room_for,
    DecodedImage,
};
use vstd::prelude::*;

verus! {

/// One step of the transform pipeline.
///
/// A `Resize` dimension of zero stands for "keep the current size on that axis".
#[derive(Clone, Copy, Debug, PartialEq, Eq, Structural)]
pub enum Operation {
    Resize { width: u32, height: u32 },
    FlipHorizontally,
    FlipVertically,
}

/// Magnitude of a signed 32-bit value.
pub open spec fn magnitude(v: int) -> int {
    if v < 0 { -v } else { v }
}

/// Computes the magnitude of a signed value; the most negative value has one too.
pub fn unsigned_magnitude(v: i32) -> (m: u32)
    ensures
        m == magnitude(v as int),
{
    if v >= 0 {
        v as u32
    } else {
        let wide: i64 = v as i64;
        (-wide) as u32
    }
}

/// The operations a target size stands for: the resize first, then the
/// horizontal flip, then the vertical flip.
pub open spec fn operations_for(resize: ImageResize) -> Seq<Operation> {
    let first = seq![
        Operation::Resize {
            width: magnitude(resize.target_width as int) as u32,
            height: magnitude(resize.target_height as int) as u32,
        },
    ];
    let second = if resize.target_width < 0 {
        first.push(Operation::FlipHorizontally)
    } else {
        first
    };
    if resize.target_height < 0 {
        second.push(Operation::FlipVertically)
    } else {
        second
    }
}

/// An ordered list of operations.
#[derive(Clone, Debug, PartialEq, Eq)]
pub struct Operations(pub Vec<Operation>);

impl View for Operations {
    type V = Seq<Operation>;

    open spec fn view(&self) -> Seq<Operation> {
        self.0@
    }
}

impl Operations {
    /// Compiles an optional target size into the list of operations it asks for.
    pub fn build(image_resize: &Option<ImageResize>) -> (ops: Operations)
        ensures
            ops@ == match *image_resize {
                Some(resize) => operations_for(resize),
                None => Seq::<Operation>::empty(),
            },
    {
        let mut v: Vec<Operation> = Vec::new();
        if let Some(resize) = image_resize {
            v.push(Operation::Resize {
                width: unsigned_magnitude(resize.target_width),
                height: unsigned_magnitude(resize.target_height),
            });
            if resize.target_width < 0 {
                v.push(Operation::FlipHorizontally);
            }
            if resize.target_height < 0 {
                v.push(Operation::FlipVertically);
            }
        }
        Operations(v)
    }
}

/// The size that a resize to `width` by `height` gives to an image of
/// `current_width` by `current_height`: the width and the height asked for,
/// where a zero keeps the current size on its axis.
pub open spec fn resize_bounds(current_width: u32, current_height: u32, width: u32, height: u32) -> (
    u32,
    u32,
) {
    (
        if width == 0 {
            current_width
        } else {
            width
        },
        if height == 0 {
            current_height
        } else {
            height
        },
    )
}

/// Whether one operation can be applied to an image of the given size
/// without a buffer that is beyond one allocation.
pub open spec fn operation_has_room(width: u32, height: u32, operation: Operation) -> bool {
    match operation {
        Operation::Resize { width: w, height: h } => {
            let size = resize_bounds(width, height, w, h);
            resize_has_room(width, height, size.0, size.1)
        },
        Operation::FlipHorizontally => true,
        Operation::FlipVertically => true,
    }
}

/// The dimensions of an image of the given size after one operation: a
/// resize gives the size it asks for, a flip keeps the size.
pub open spec fn dimensions_after(width: u32, height: u32, operation: Operation) -> (u32, u32) {
    match operation {
        Operation::Resize { width: w, height: h } => resize_bounds(width, height, w, h),
        Operation::FlipHorizontally => (width, height),
        Operation::FlipVertically => (width, height),
    }
}

/// The dimensions of an image of the given size after the operations, from
/// left to right; `None` where one of them has no room.
pub open spec fn dimensions_after_all(width: u32, height: u32, operations: Seq<Operation>) -> Option<
    (u32, u32),
>
    decreases operations.len(),
{
    if operations.len() == 0 {
        Some((width, height))
    } else if !operation_has_room(width, height, operations[0]) {
        None
    } else {
        let next = dimensions_after(width, height, operations[0]);
        dimensions_after_all(next.0, next.1, operations.drop_first())
    }
}

/// A target size of zero by zero stands for one resize that keeps both
/// axes, and that resize leaves an image of any size at its size.
pub proof fn lemma_zero_by_zero_keeps_dimensions(width: u32, height: u32)
    ensures
        operations_for(ImageResize { target_width: 0, target_height: 0 }) == seq![
            Operation::Resize { width: 0, height: 0 },
        ],
        dimensions_after_all(
            width,
            height,
            operations_for(ImageResize { target_width: 0, target_height: 0 }),
        ) == Some((width, height)),
{
    let operations = seq![Operation::Resize { width: 0, height: 0 }];
    assert(operations_for(ImageResize { target_width: 0, target_height: 0 }) =~= operations);
    assert(operations.drop_first() =~= Seq::<Operation>::empty());
    assert(dimensions_after(width, height, operations[0]) == (width, height));
    assert(dimensions_after_all(width, height, Seq::<Operation>::empty()) == Some(
        (width, height),
    ));
}

/// A resize to a width and a height that are not zero gives an image of
/// that width and that height, whatever the size of the image was.
pub proof fn lemma_resize_gives_the_size_asked_for(
    current_width: u32,
    current_height: u32,
    width: u32,
    height: u32,
)
    requires
        width > 0,
        height > 0,
    ensures
        dimensions_after(current_width, current_height, Operation::Resize { width, height }) == (
            width,
            height,
        ),
        operation_has_room(current_width, current_height, Operation::Resize { width, height })
            ==> dimensions_after_all(
            current_width,
            current_height,
            seq![Operation::Resize { width, height }],
        ) == Some((width, height)),
{
    let operations = seq![Operation::Resize { width, height }];
    assert(operations.drop_first() =~= Seq::<Operation>::empty());
    assert(dimensions_after_all(width, height, Seq::<Operation>::empty()) == Some(
        (width, height),
    ));
}

/// Flips never change the dimensions of an image, and always have room.
pub proof fn lemma_flips_keep_dimensions(width: u32, height: u32, operation: Operation)
    requires
        operation is FlipHorizontally || operation is FlipVertically,
    ensures
        operation_has_room(width, height, operation),
        dimensions_after(width, height, operation) == (width, height),
{
}

/// Applies one operation to an image.
pub fn apply_operation(image: DecodedImage, operation: &Operation) -> (r: Option<DecodedImage>)
    ensures
        r is Some <==> operation_has_room(image.width(), image.height(), *operation),
        r matches Some(next) ==> (next.width(), next.height()) == dimensions_after(
            image.width(),
            image.height(),
            *operation,
        ),
{
    match *operation {
        Operation::Resize { width, height } => {
            let new_width = if width == 0 {
                image.width()
            } else {
                width
            };
            let new_height = if height == 0 {
                image.height()
            } else {
                height
            };
            let same = new_width == image.width() && new_height == image.height();
            if same || (room_for(image.width(), new_height) && room_for(
                new_width,
                new_height,
            )) {
                Some(resize_pixels(&image, new_width, new_height))
            } else {
                None
            }
        },
        Operation::FlipHorizontally => Some(flip_pixels_horizontally(&image)),
        Operation::FlipVertically => Some(flip_pixels_vertically(&image)),
    }
}

/// A transform engine: applies a list of operations to an image.
pub trait OperationsRunner {
    /// Applies the operations from left to right. `None` where the engine
    /// cannot hold an image that an operation asks for.
    fn run(&self, image: DecodedImage, operations: &Operations) -> Option<DecodedImage>;
}

/// The engine of this crate: it resamples with the `image` crate.
#[derive(Debug)]
pub struct SingletonOperationsRunner;

impl OperationsRunner for SingletonOperationsRunner {
    /// Folds the operations over the image. The dimensions of the result
    /// are those that the operations give one after the other.
    fn run(&self, image: DecodedImage, operations: &Operations) -> (r: Option<DecodedImage>)
        ensures
            r is Some <==> dimensions_after_all(image.width(), image.height(), operations@)
                is Some,
            r matches Some(out) ==> dimensions_after_all(
                image.width(),
                image.height(),
                operations@,
            ) == Some((out.width(), out.height())),
    {
        let ghost start = (image.width(), image.height());
        let mut current = image;
        let mut i: usize = 0;
        assert(operations@.skip(0) =~= operations@);
        while i < operations.0.len()
            invariant
                i <= operations.0.len(),
                start == (image.width(), image.height()),
                dimensions_after_all(start.0, start.1, operations@) == dimensions_after_all(
                    current.width(),
                    current.height(),
                    operations@.skip(i as int),
                ),
            decreases operations.0.len() - i,
        {
            let ghost rest = operations@.skip(i as int);
            assert(rest[0] == operations@[i as int]);
            assert(rest.drop_first() =~= operations@.skip(i + 1));
            match apply_operation(current, &operations.0[i]) {
                Some(next) => {
                    current = next;
                },
                None => {
                    return None;
                },
            }
            i += 1;
        }
        Some(current)
    }
}

} // verus!
