//! What the wizard's pages show: the image page with its digest chooser, the
//! device page with its catalog, and which page is in front.

use vstd::prelude::*;
use vstd::string::StringExecFns;

use crate::catalog::DeviceCatalog;
use crate::wizard::WizardState;

verus! {

/// The page for choosing the image and checking its digest.
pub struct ImageView {
    pub topic: String,
    pub description: String,
    /// The label of the button that opens the file chooser.
    pub chooser: String,
    /// The position of the selected algorithm in the digest chooser.
    pub hash: usize,
    /// The digest of the loaded image, once computed.
    pub hash_label: String,
    /// The file name of the loaded image, once loaded.
    pub image_path: String,
}

/// The page for selecting the devices to write.
pub struct DevicesView {
    pub topic: String,
    pub description: String,
    pub catalog: DeviceCatalog,
}

/// The wizard's pages and the one that is in front.
pub struct Content {
    pub visible: WizardState,
    pub image_view: ImageView,
    pub devices_view: DevicesView,
}

impl ImageView {
    /// The image page before any image is loaded: the first algorithm
    /// selected, no digest, no file name.
    pub fn new() -> (r: ImageView)
        ensures
            r.topic@ == "Choose an image"@,
            r.description@
                == "Select the .iso or .img that you want to flash. You can also plug your USB drives in now."@,
            r.chooser@ == "Choose Image"@,
            r.hash == 0,
            r.hash_label@ == Seq::<char>::empty(),
            r.image_path@ == Seq::<char>::empty(),
    {
        ImageView {
            topic: String::from_str("Choose an image"),
            description: String::from_str(
                "Select the .iso or .img that you want to flash. You can also plug your USB drives in now.",
            ),
            chooser: String::from_str("Choose Image"),
            hash: 0,
            hash_label: String::new(),
            image_path: String::new(),
        }
    }
}

impl DevicesView {
    /// The device page with an empty catalog.
    pub fn new() -> (r: DevicesView)
        ensures
            r.topic@ == "Select drives"@,
            r.description@ == "Flashing will erase all data on the selected drives."@,
            r.catalog@ == Seq::<(Seq<char>, bool)>::empty(),
            r.catalog.wf(),
    {
        DevicesView {
            topic: String::from_str("Select drives"),
            description: String::from_str("Flashing will erase all data on the selected drives."),
            catalog: DeviceCatalog::new(),
        }
    }
}

impl Content {
    /// All pages, fresh, with the image page in front.
    pub fn new() -> (r: Content)
        ensures
            r.visible == WizardState::ChooseImage,
            r.image_view.hash == 0,
            r.image_view.hash_label@ == Seq::<char>::empty(),
            r.image_view.image_path@ == Seq::<char>::empty(),
            r.devices_view.catalog@ == Seq::<(Seq<char>, bool)>::empty(),
            r.devices_view.catalog.wf(),
    {
        let image_view = ImageView::new();
        let devices_view = DevicesView::new();
        Content { visible: WizardState::ChooseImage, image_view, devices_view }
    }
}

} // verus!
