//! The bodies that the service answers with.

use crate::infra::image_manipulation;
use crate::infra::image_manipulation::Operations;
use vstd::prelude::*;

verus! {

/// A body of plain messages.
#[derive(Debug, PartialEq, Eq)]
pub struct Standard {
    pub messages: Vec<String>,
}

impl Standard {
    /// A body that holds one message.
    pub fn message(text: String) -> (body: Standard)
        ensures
            body.messages@ == seq![text],
    {
        let mut messages: Vec<String> = Vec::new();
        messages.push(text);
        Standard { messages }
    }
}

/// A description of what a request would do: the source it names and the
/// operations it asks for.
#[derive(Debug, PartialEq, Eq)]
pub struct MetadataResponse {
    pub source: Source,
    pub operations: Vec<Operation>,
}

/// The source image of a request.
#[derive(Debug, PartialEq, Eq)]
pub struct Source {
    pub url: String,
}

/// One operation as it is shown to a caller: its kind, and the width and
/// height where the kind has any.
#[derive(Debug, PartialEq, Eq)]
pub struct Operation {
    pub kind: String,
    pub width: Option<u32>,
    pub height: Option<u32>,
}

/// What an operation is shown as.
pub struct OperationView {
    pub kind: Seq<char>,
    pub width: Option<u32>,
    pub height: Option<u32>,
}

impl View for Operation {
    type V = OperationView;

    open spec fn view(&self) -> OperationView {
        OperationView { kind: self.kind@, width: self.width, height: self.height }
    }
}

/// How an operation of the engine is shown.
pub open spec fn shown_operation(operation: image_manipulation::Operation) -> OperationView {
    match operation {
        image_manipulation::Operation::Resize { width, height } => OperationView {
            kind: "resize"@,
            width: Some(width),
            height: Some(height),
        },
        image_manipulation::Operation::FlipHorizontally => OperationView {
            kind: "flip_horizontally"@,
            width: None,
            height: None,
        },
        image_manipulation::Operation::FlipVertically => OperationView {
            kind: "flip_vertically"@,
            width: None,
            height: None,
        },
    }
}

/// How a list of operations is shown: one by one, in their order.
pub open spec fn shown_operations(operations: Seq<image_manipulation::Operation>) -> Seq<
    OperationView,
> {
    operations.map_values(|op: image_manipulation::Operation| shown_operation(op))
}

/// The views of a list of shown operations.
pub open spec fn operation_views(operations: Seq<Operation>) -> Seq<OperationView> {
    operations.map_values(|op: Operation| op@)
}

impl MetadataResponse {
    /// Describes a request for `url` with the operations `ops`.
    pub fn build(url: &str, ops: &Operations) -> (response: MetadataResponse)
        ensures
            response.source.url@ == url@,
            operation_views(response.operations@) == shown_operations(ops@),
    {
        let mut operations: Vec<Operation> = Vec::new();
        let mut i: usize = 0;
        while i < ops.0.len()
            invariant
                i <= ops.0.len(),
                operation_views(operations@) =~= shown_operations(ops@.take(i as int)),
            decreases ops.0.len() - i,
        {
            let shown = match ops.0[i] {
                image_manipulation::Operation::Resize { width, height } => Operation {
                    kind: "resize".to_owned(),
                    width: Some(width),
                    height: Some(height),
                },
                image_manipulation::Operation::FlipHorizontally => Operation {
                    kind: "flip_horizontally".to_owned(),
                    width: None,
                    height: None,
                },
                image_manipulation::Operation::FlipVertically => Operation {
                    kind: "flip_vertically".to_owned(),
                    width: None,
                    height: None,
                },
            };
            assert(shown@ == shown_operation(ops@[i as int]));
            let ghost before = operations@;
            operations.push(shown);
            assert(operation_views(operations@) =~= operation_views(before).push(shown@));
            assert(ops@.take(i + 1) =~= ops@.take(i as int).push(ops@[i as int]));
            assert(shown_operations(ops@.take(i + 1)) =~= shown_operations(
                ops@.take(i as int),
            ).push(shown_operation(ops@[i as int])));
            i += 1;
        }
        assert(ops@.take(i as int) =~= ops@);
        MetadataResponse { source: Source { url: url.to_owned() }, operations }
    }
}

} // verus!
