//! Application state around the data model and the loader: the featured
//! highlight, the last-seen sections, and the current search string. The UI
//! shell drives it once per redraw and renders from it.

use crate::data::FeaturedRepo;
use crate::data::RepoSection;
use crate::loader::LoadStateView;
use crate::loader::PortfolioLoadState;
use crate::loader::PortfolioLoader;
use crate::loader::sections_view;
use vstd::prelude::*;
use vstd::string::StringExecFns;

verus! {

impl FeaturedRepo {
    /// The built-in highlight shown until a bundled document provides one: a
    /// well-formed entry whose name is never empty.
    pub fn placeholder() -> (r: Self)
        ensures
            r.name@ == "Gridelle"@,
            r.name@.len() != 0,
            r.description@ == "Repository portfolio browser"@,
            r.repository@ == "https://github.com/pirakansa"@,
            r.tags@ == Seq::<String>::empty(),
            r.updated_at@ == Seq::<char>::empty(),
    {
        proof {
            reveal_strlit("Gridelle");
        }
        FeaturedRepo {
            name: String::from_str("Gridelle"),
            description: String::from_str("Repository portfolio browser"),
            repository: String::from_str("https://github.com/pirakansa"),
            tags: Vec::new(),
            updated_at: String::new(),
        }
    }
}

/// The whole application state: the featured highlight, the sections last
/// adopted from a successful load, the search string, and the loader. The
/// loader's transient status is never persisted; the rest may be.
pub struct TemplateApp {
    pub featured: FeaturedRepo,
    pub sections: Vec<RepoSection>,
    pub search_query: String,
    pub portfolio_loader: PortfolioLoader,
}

impl TemplateApp {
    /// The state around a given featured highlight: sections start empty and
    /// are populated only by a successful load; the search box starts empty;
    /// the loader has not started.
    pub fn with_featured(featured: FeaturedRepo) -> (r: Self)
        ensures
            r.featured == featured,
            r.sections@ == Seq::<RepoSection>::empty(),
            r.search_query@ == Seq::<char>::empty(),
            r.portfolio_loader@ is NotStarted,
    {
        TemplateApp {
            featured,
            sections: Vec::new(),
            search_query: String::new(),
            portfolio_loader: PortfolioLoader::new(),
        }
    }

    /// Adopts the loaded sections as the rendered list once the load has
    /// completed; in every other state the list stays as it is, so after an
    /// error the previously rendered sections remain visible as a fallback.
    pub fn adopt_loaded_sections(&mut self)
        ensures
            final(self).featured == old(self).featured,
            final(self).search_query == old(self).search_query,
            final(self).portfolio_loader == old(self).portfolio_loader,
            old(self).portfolio_loader@ matches LoadStateView::Loaded(loaded) ==> sections_view(
                final(self).sections@,
            ) == loaded,
            !(old(self).portfolio_loader@ is Loaded) ==> final(self).sections@ == old(
                self,
            ).sections@,
    {
        match self.portfolio_loader.state() {
            PortfolioLoadState::Loaded(sections) => {
                self.sections = sections;
            },
            _ => {},
        }
    }
}

impl Default for TemplateApp {
    /// A fresh app: the placeholder highlight, no sections, an empty search
    /// string, and a loader that has not started.
    fn default() -> (r: Self)
        ensures
            r.featured.name@.len() != 0,
            r.sections@ == Seq::<RepoSection>::empty(),
            r.search_query@ == Seq::<char>::empty(),
            r.portfolio_loader@ is NotStarted,
    {
        TemplateApp::with_featured(FeaturedRepo::placeholder())
    }
}

} // verus!
