//! The model of the machine, as its firmware names it.
use vstd::prelude::*;
use crate::chars::{str_equal, without_char};
use crate::fetch::{one_line, single_line, Fetch, Line, LineView};
use crate::modules::platform::read_product_info;

verus! {

/// The vendor and the name of the board and, where the firmware has one,
/// the name of the product.
pub struct Model {
    pub product_name: Option<String>,
    pub board_vendor: String,
    pub board_name: String,
}

/// What the firmware writes where the maker gave the product no name.
pub const NO_PRODUCT_NAME: &'static str = "System Product Name";

/// The model as it is shown: the vendor, the product where it has a name,
/// and the board, with a blank between each two.
pub open spec fn model_text(
    product_name: Option<Seq<char>>,
    board_vendor: Seq<char>,
    board_name: Seq<char>,
) -> Seq<char> {
    match product_name {
        Some(product) => board_vendor + seq![' '] + product + seq![' '] + board_name,
        None => board_vendor + seq![' '] + board_name,
    }
}

impl Model {
    /// The model read from the three lines in which the firmware names
    /// the product, the vendor of the board and the board. A product
    /// called `NO_PRODUCT_NAME` has no name.
    pub fn new(product_name: &str, board_vendor: &str, board_name: &str) -> (model: Model)
        ensures
            model.board_vendor@ == without_char(board_vendor@, '\n'),
            model.board_name@ == without_char(board_name@, '\n'),
            crate::text::option_view(model.product_name) == if without_char(product_name@, '\n')
                == NO_PRODUCT_NAME@ {
                None
            } else {
                Some(without_char(product_name@, '\n'))
            },
    {
        let product = read_product_info(product_name);
        Model {
            product_name: if str_equal(product.as_str(), NO_PRODUCT_NAME) {
                None
            } else {
                Some(product)
            },
            board_vendor: read_product_info(board_vendor),
            board_name: read_product_info(board_name),
        }
    }

    /// The vendor, the product where it has a name, and the board.
    pub fn to_string(&self) -> (text: String)
        ensures
            text@ == model_text(
                crate::text::option_view(self.product_name),
                self.board_vendor@,
                self.board_name@,
            ),
    {
        let mut text = String::new();
        text.append(self.board_vendor.as_str());
        if let Some(v) = &self.product_name {
            text.push(' ');
            text.append(v.as_str());
        }
        text.push(' ');
        text.append(self.board_name.as_str());
        text
    }
}

impl Fetch for Model {
    open spec fn fetchable(&self) -> bool {
        true
    }

    open spec fn name_view(&self) -> Seq<char> {
        "Model"@
    }

    open spec fn content_view(&self) -> Seq<char> {
        model_text(
            crate::text::option_view(self.product_name),
            self.board_vendor@,
            self.board_name@,
        )
    }

    open spec fn lines_view(&self) -> Seq<LineView> {
        single_line(self.name_view(), self.content_view())
    }

    fn name(&self) -> (name: &'static str) {
        "Model"
    }

    fn content(&self) -> (content: String) {
        self.to_string()
    }

    fn as_fetchlines(&self) -> (lines: Vec<Line>) {
        one_line(self.as_fetchsection())
    }
}

} // verus!
