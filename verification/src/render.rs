//! The render rule: a pure mapping from the viewer's state to what the
//! window shows. Layout (the top row, the fill spacing above and below the
//! display area, the centering of the column) is delegated to the host
//! toolkit; what is decided here is the content.

use vstd::prelude::*;
use vstd::string::StringExecFns;
use crate::events::Message;
use crate::state::Lionfish;

verus! {

/// The display area: the selected image, or a placeholder message when no
/// image is selected.
#[derive(Clone, Debug, PartialEq, Eq)]
pub enum DisplayContent {
    Image(String),
    Placeholder(String),
}

/// What the window shows: one open control (its label and the message it
/// emits when pressed) above the display area.
#[derive(Clone, Debug, PartialEq, Eq)]
pub struct ViewModel {
    pub open_label: String,
    pub open_message: Message,
    pub content: DisplayContent,
}

impl Lionfish {
    /// Maps the state to what the window shows: the "Open" control, and
    /// either an image view bound to the selected path or the placeholder
    /// text when no path is selected.
    pub fn view(&self) -> (model: ViewModel)
        ensures
            model.open_label@ == "Open"@,
            model.open_message == Message::OpenFile,
            self.img_path matches Some(path) ==> model.content == DisplayContent::Image(path),
            self.img_path is None ==> (model.content matches DisplayContent::Placeholder(text)
                && text@ == "No Image is Selected!"@),
    {
        let content = match &self.img_path {
            Some(path) => DisplayContent::Image(path.clone()),
            None => DisplayContent::Placeholder(String::from_str("No Image is Selected!")),
        };
        ViewModel {
            open_label: String::from_str("Open"),
            open_message: Message::OpenFile,
            content,
        }
    }
}

} // verus!
