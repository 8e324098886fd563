//! The wizard's page state machine: which page is in front, and what moving
//! forward or back on it does, what loading an image or choosing a digest
//! does, and what each monitor tick concludes.

use vstd::prelude::*;

use crate::catalog::{first_occurrences, selected_of, string_views, unselected, DeviceCatalog};
use crate::checksum::{digest_of, hex_of, kind_at, HashKind};
use crate::content::Content;
use crate::flash::{all_finished, fractions_of, fresh_tasks, task_views, tasks_after, TaskEvent, TaskSupervisor, Tick};
use crate::image::ImageBuffer;

verus! {

/// The pages of the wizard, in order.
#[derive(Clone, Copy, Debug, PartialEq, Eq, Structural)]
pub enum WizardState {
    ChooseImage,
    SelectDevices,
    Flashing,
    Summary,
}

/// What the surrounding program must do after a user action.
#[derive(Clone, Copy, Debug, PartialEq, Eq, Structural)]
pub enum Step {
    /// The action is not available here; nothing changed.
    Rejected,
    /// Close the application.
    Quit,
    /// Show the image page.
    ShowImage,
    /// Show the device page, enumerate the devices and hand them to
    /// `App::populate_devices`.
    EnumerateDevices,
    /// Show the flashing page and start one background write per task of
    /// the new run.
    StartFlashing,
}

/// The whole wizard: its pages, the loaded image, and the current run.
pub struct App {
    pub content: Content,
    pub image: Option<ImageBuffer>,
    pub run: TaskSupervisor,
}

impl App {
    /// The page in front.
    pub open spec fn page(&self) -> WizardState {
        self.content.visible
    }

    /// The devices on offer.
    pub open spec fn catalog(&self) -> DeviceCatalog {
        self.content.devices_view.catalog
    }

    /// The wizard's invariant: past the image page an image is loaded, and
    /// device identifiers are unique.
    pub open spec fn wf(&self) -> bool {
        &&& self.page() != WizardState::ChooseImage ==> self.image is Some
        &&& self.catalog().wf()
    }

    /// `post` is `pre` with the catalog emptied and `page` in front.
    pub open spec fn moved_with_empty_catalog(pre: App, post: App, page: WizardState) -> bool {
        &&& post.page() == page
        &&& post.catalog()@ == Seq::<(Seq<char>, bool)>::empty()
        &&& post.image == pre.image
        &&& post.run == pre.run
        &&& post.content.image_view == pre.content.image_view
    }

    /// What moving forward does, from each page.
    pub open spec fn advanced(pre: App, post: App, step: Step) -> bool {
        match pre.page() {
            WizardState::ChooseImage => if pre.image is None {
                step == Step::Rejected && post == pre
            } else {
                step == Step::EnumerateDevices && App::moved_with_empty_catalog(
                    pre,
                    post,
                    WizardState::SelectDevices,
                )
            },
            WizardState::SelectDevices => if selected_of(pre.catalog()@).len() == 0
                || !all_finished(pre.run.tasks@) {
                step == Step::Rejected && post == pre
            } else {
                &&& step == Step::StartFlashing
                &&& post.page() == WizardState::Flashing
                &&& task_views(post.run.tasks@) == fresh_tasks(selected_of(pre.catalog()@))
                &&& post.image == pre.image
                &&& post.content.image_view == pre.content.image_view
                &&& post.content.devices_view == pre.content.devices_view
            },
            WizardState::Flashing => step == Step::Rejected && post == pre,
            WizardState::Summary => step == Step::Quit && post == pre,
        }
    }

    /// What moving back does, from each page.
    pub open spec fn retreated(pre: App, post: App, step: Step) -> bool {
        match pre.page() {
            WizardState::ChooseImage => step == Step::Quit && post == pre,
            WizardState::SelectDevices => step == Step::ShowImage
                && App::moved_with_empty_catalog(pre, post, WizardState::ChooseImage),
            _ => step == Step::Rejected && post == pre,
        }
    }

    /// A fresh wizard on the image page: no image, no devices, no run.
    pub fn new() -> (r: App)
        ensures
            r.wf(),
            r.page() == WizardState::ChooseImage,
            r.image is None,
            r.run.tasks@.len() == 0,
            r.catalog()@ == Seq::<(Seq<char>, bool)>::empty(),
    {
        App { content: Content::new(), image: None, run: TaskSupervisor::new() }
    }

    /// The page in front.
    pub fn state(&self) -> (r: WizardState)
        ensures
            r == self.page(),
    {
        self.content.visible
    }

    /// Moves forward from the page in front.
    pub fn advance(&mut self) -> (r: Step)
        requires
            old(self).wf(),
        ensures
            final(self).wf(),
            App::advanced(*old(self), *final(self), r),
    {
        match self.content.visible {
            WizardState::ChooseImage => {
                if self.image.is_none() {
                    return Step::Rejected;
                }
                self.content.devices_view.catalog = DeviceCatalog::new();
                self.content.visible = WizardState::SelectDevices;
                Step::EnumerateDevices
            },
            WizardState::SelectDevices => {
                let ids = self.content.devices_view.catalog.selected_ids();
                if ids.len() == 0 || !self.run.start(ids) {
                    return Step::Rejected;
                }
                self.content.visible = WizardState::Flashing;
                Step::StartFlashing
            },
            WizardState::Flashing => Step::Rejected,
            WizardState::Summary => Step::Quit,
        }
    }

    /// Moves back from the page in front.
    pub fn retreat(&mut self) -> (r: Step)
        requires
            old(self).wf(),
        ensures
            final(self).wf(),
            App::retreated(*old(self), *final(self), r),
    {
        match self.content.visible {
            WizardState::ChooseImage => Step::Quit,
            WizardState::SelectDevices => {
                self.content.devices_view.catalog = DeviceCatalog::new();
                self.content.visible = WizardState::ChooseImage;
                Step::ShowImage
            },
            _ => Step::Rejected,
        }
    }
}

impl App {
    /// Fills the catalog with the enumerated devices, each unselected, in
    /// enumeration order, a repeated identifier kept once; only while the
    /// device page is in front. Returns whether the catalog was filled.
    pub fn populate_devices(&mut self, ids: Vec<String>) -> (r: bool)
        requires
            old(self).wf(),
        ensures
            final(self).wf(),
            r == (old(self).page() == WizardState::SelectDevices),
            r ==> final(self).catalog()@ == unselected(first_occurrences(string_views(ids@))),
            !r ==> *final(self) == *old(self),
            final(self).page() == old(self).page(),
            final(self).image == old(self).image,
            final(self).run == old(self).run,
    {
        if self.content.visible != WizardState::SelectDevices {
            return false;
        }
        self.content.devices_view.catalog.populate(ids);
        true
    }

    /// The "select all" toggle: when `active`, selects every device;
    /// otherwise changes nothing.
    pub fn toggle_select_all(&mut self, active: bool)
        requires
            old(self).wf(),
        ensures
            final(self).wf(),
            active ==> final(self).catalog()@ == crate::catalog::all_selected(old(self).catalog()@),
            !active ==> final(self).catalog()@ == old(self).catalog()@,
            final(self).page() == old(self).page(),
            final(self).image == old(self).image,
            final(self).run == old(self).run,
    {
        self.content.devices_view.catalog.select_all(active);
    }

    /// Selects or deselects the device at `index`; out of range, changes nothing.
    pub fn set_device_selected(&mut self, index: usize, selected: bool)
        requires
            old(self).wf(),
        ensures
            final(self).wf(),
            index < old(self).catalog()@.len() ==> final(self).catalog()@ == old(
                self,
            ).catalog()@.update(index as int, (old(self).catalog()@[index as int].0, selected)),
            index >= old(self).catalog()@.len() ==> final(self).catalog()@ == old(self).catalog()@,
            final(self).page() == old(self).page(),
            final(self).image == old(self).image,
            final(self).run == old(self).run,
    {
        self.content.devices_view.catalog.set_selected(index, selected);
    }

    /// The identifiers of the selected devices, in enumeration order.
    pub fn selected_ids(&self) -> (r: Vec<String>)
        ensures
            string_views(r@) == selected_of(self.catalog()@),
    {
        self.content.devices_view.catalog.selected_ids()
    }

    /// Installs a newly read image, named `name`, in place of any earlier
    /// one; only while the image page is in front. The digest shown is
    /// cleared until the next choice of algorithm. Returns whether the image
    /// was installed.
    pub fn load_image(&mut self, name: String, bytes: Vec<u8>) -> (r: bool)
        requires
            old(self).wf(),
        ensures
            final(self).wf(),
            r == (old(self).page() == WizardState::ChooseImage),
            r ==> final(self).image is Some && final(self).image->0@ == bytes@,
            r ==> final(self).content.image_view.image_path@ == name@,
            r ==> final(self).content.image_view.hash_label@ == Seq::<char>::empty(),
            r ==> final(self).content.image_view.hash == old(self).content.image_view.hash,
            !r ==> *final(self) == *old(self),
            final(self).page() == old(self).page(),
            final(self).catalog() == old(self).catalog(),
            final(self).run == old(self).run,
    {
        if self.content.visible != WizardState::ChooseImage {
            return false;
        }
        self.image = Some(ImageBuffer::new(bytes));
        self.content.image_view.image_path = name;
        self.content.image_view.hash_label = String::new();
        true
    }

    /// Selects the digest algorithm at `index` of the chooser and, when an
    /// image is loaded, shows its digest under that algorithm. An index past
    /// the chooser changes nothing. Returns whether the index was taken.
    pub fn select_hash(&mut self, index: usize) -> (r: bool)
        requires
            old(self).wf(),
        ensures
            final(self).wf(),
            r == (kind_at(index as int) is Some),
            !r ==> *final(self) == *old(self),
            r ==> final(self).content.image_view.hash == index,
            r && old(self).image is Some ==> final(self).content.image_view.hash_label@ == hex_of(
                digest_of(kind_at(index as int)->0, old(self).image->0@),
            ),
            r && old(self).image is None ==> final(self).content.image_view.hash_label
                == old(self).content.image_view.hash_label,
            final(self).content.image_view.image_path == old(self).content.image_view.image_path,
            final(self).page() == old(self).page(),
            final(self).image == old(self).image,
            final(self).catalog() == old(self).catalog(),
            final(self).run == old(self).run,
    {
        let kind = match HashKind::from_index(index) {
            Some(k) => k,
            None => {
                return false;
            },
        };
        self.content.image_view.hash = index;
        match &self.image {
            Some(image) => {
                let text = image.digest(kind);
                self.content.image_view.hash_label = text;
            },
            None => {},
        }
        true
    }

    /// Records one event from a background writer in the current run.
    pub fn record(&mut self, event: TaskEvent)
        requires
            old(self).wf(),
        ensures
            final(self).wf(),
            final(self).run.tasks@ == tasks_after(old(self).run.tasks@, event),
            final(self).content == old(self).content,
            final(self).image == old(self).image,
    {
        self.run.apply(event);
    }

    /// One tick of the progress monitor. Idle unless the flashing page is in
    /// front with an image and a run; otherwise each task's bar value, and
    /// when every task has finished the summary page comes to the front and
    /// the monitor stops.
    pub fn tick(&mut self) -> (r: Tick)
        requires
            old(self).wf(),
        ensures
            final(self).wf(),
            final(self).image == old(self).image,
            final(self).run == old(self).run,
            final(self).content.image_view == old(self).content.image_view,
            final(self).content.devices_view == old(self).content.devices_view,
            old(self).page() != WizardState::Flashing || old(self).image is None || old(
                self,
            ).run.tasks@.len() == 0 ==> r is Idle && *final(self) == *old(self),
            old(self).page() == WizardState::Flashing && old(self).image is Some && old(
                self,
            ).run.tasks@.len() > 0 ==> match r {
                Tick::Idle => false,
                Tick::Progress(v) => !all_finished(old(self).run.tasks@) && v@ == fractions_of(
                    old(self).run.tasks@,
                    old(self).image->0@.len() as u64,
                ) && final(self).page() == WizardState::Flashing,
                Tick::Complete(v) => all_finished(old(self).run.tasks@) && v@ == fractions_of(
                    old(self).run.tasks@,
                    old(self).image->0@.len() as u64,
                ) && final(self).page() == WizardState::Summary,
            },
    {
        if self.content.visible != WizardState::Flashing {
            return Tick::Idle;
        }
        let image_len: Option<u64> = match &self.image {
            Some(image) => Some(image.len() as u64),
            None => None,
        };
        let r = self.run.tick(image_len);
        match &r {
            Tick::Complete(_) => {
                self.content.visible = WizardState::Summary;
            },
            _ => {},
        }
        r
    }
}

/// Moving back from the device page and then forward again returns to the
/// device page with an empty catalog, ready to be populated afresh; and
/// both moves keep the wizard's invariant.
pub proof fn lemma_back_then_forward(a: App, b: App, c: App, s1: Step, s2: Step)
    requires
        a.wf(),
        a.page() == WizardState::SelectDevices,
        App::retreated(a, b, s1),
        App::advanced(b, c, s2),
    ensures
        b.wf(),
        c.wf(),
        s1 == Step::ShowImage,
        s2 == Step::EnumerateDevices,
        c.page() == WizardState::SelectDevices,
        c.catalog()@ == Seq::<(Seq<char>, bool)>::empty(),
{
    assert(c.catalog()@ =~= Seq::<(Seq<char>, bool)>::empty());
}

} // verus!
