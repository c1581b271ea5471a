//! A project: its settings, its video and the curves its properties share.

use vstd::prelude::*;
use crate::curve::SharedCurves;
use crate::content::GenericContentData;
use crate::video::{Video, VideoType, new_full_v, empty_list_v, unselected};

verus! {

/// A project's own settings.
pub struct ProjectData {
    pub name: String,
    /// The file the project is saved in.
    pub path: Option<String>,
}

/// The abstract value of a project's settings.
pub struct ProjectDataV {
    pub name: Seq<char>,
    pub path: Option<Seq<char>>,
}

impl View for ProjectData {
    type V = ProjectDataV;

    open spec fn view(&self) -> ProjectDataV {
        ProjectDataV {
            name: self.name@,
            path: match &self.path {
                Some(p) => Some(p@),
                None => None,
            },
        }
    }
}

impl ProjectData {
    /// A project that has no name and was never saved.
    pub fn default() -> (r: ProjectData)
        ensures
            r@ == (ProjectDataV { name: "Unnamed Project"@, path: None }),
    {
        ProjectData { name: "Unnamed Project".to_string(), path: None }
    }
}

/// A project: its settings, its video and its shared curves.
pub struct Project {
    pub proj: ProjectData,
    pub vid: Video,
    pub shared_curves: SharedCurves,
}

impl Project {
    /// A project with the settings `proj`, an empty list as its video and no shared
    /// curves.
    pub fn new(proj: ProjectData) -> (r: Project)
        ensures
            r.proj == proj,
            r.vid@ == new_full_v(empty_list_v(unselected())),
            r.shared_curves.wf(),
            r.shared_curves@ == Map::<u64, crate::curve::CurveDataV>::empty(),
    {
        let vid = Video::new_full(VideoType::empty_list(GenericContentData::new()));
        Project { proj, vid, shared_curves: SharedCurves::new() }
    }

    /// The project's video.
    pub fn vid(&self) -> (r: &Video)
        ensures
            *r == self.vid,
    {
        &self.vid
    }

    /// Makes `vid` the project's video.
    pub fn add_vid(&mut self, vid: Video)
        ensures
            final(self).vid == vid,
            final(self).proj == old(self).proj,
            final(self).shared_curves == old(self).shared_curves,
    {
        self.vid = vid;
    }
}

} // verus!
