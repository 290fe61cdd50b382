use vstd::prelude::*;

use crate::markup::to_html;

verus! {

/// An editable page of the site: its Markdown source and the HTML rendered from it.
pub struct Page {
    pub content: String,
    pub html_content: String,
}

impl Clone for Page {
    fn clone(&self) -> (res: Self)
        ensures
            res == *self,
    {
        Page { content: self.content.clone(), html_content: self.html_content.clone() }
    }
}

impl Page {
    /// The page holds `source` and the HTML that Markdown renders from it.
    pub open spec fn renders(self, source: Seq<char>) -> bool {
        &&& self.content@ == source
        &&& self.html_content@ == crate::markup::markdown_html(source)
    }

    pub fn new(data: &str) -> (page: Self)
        ensures
            page.renders(data@),
    {
        Page { content: data.to_owned(), html_content: to_html(data) }
    }
}

/// The two editable pages of the blog: the index page and the "about me" page.
pub struct Pages {
    pub index_page: Page,
    pub aboutme_page: Page,
}

/// Markdown source of the index page of a new blog.
pub open spec fn initial_index_source() -> Seq<char> {
    "# **My blog**\nThis is example description "@
}

/// Markdown source of the "about me" page of a new blog.
pub open spec fn initial_aboutme_source() -> Seq<char> {
    "# About me"@
}

/// `after` is `before` with the index page replaced by a rendering of `source`.
pub open spec fn index_edited(before: Pages, after: Pages, source: Seq<char>) -> bool {
    &&& after.index_page.renders(source)
    &&& after.aboutme_page == before.aboutme_page
}

/// `after` is `before` with the "about me" page replaced by a rendering of `source`.
pub open spec fn aboutme_edited(before: Pages, after: Pages, source: Seq<char>) -> bool {
    &&& after.aboutme_page.renders(source)
    &&& after.index_page == before.index_page
}

impl Pages {
    pub fn new() -> (pages: Self)
        ensures
            pages.index_page.renders(initial_index_source()),
            pages.aboutme_page.renders(initial_aboutme_source()),
    {
        Pages {
            index_page: Page::new("# **My blog**\nThis is example description "),
            aboutme_page: Page::new("# About me"),
        }
    }

    pub fn get_index(&self) -> (page: Page)
        ensures
            page == self.index_page,
    {
        self.index_page.clone()
    }

    pub fn get_aboutme(&self) -> (page: Page)
        ensures
            page == self.aboutme_page,
    {
        self.aboutme_page.clone()
    }

    pub fn modify_index(&mut self, content: String)
        ensures
            index_edited(*old(self), *final(self), content@),
    {
        self.index_page = Page::new(content.as_str());
    }

    pub fn modify_aboutme(&mut self, content: String)
        ensures
            aboutme_edited(*old(self), *final(self), content@),
    {
        self.aboutme_page = Page::new(content.as_str());
    }
}

/// Law: an edited page reads back as the rendering of what was written, and
/// editing one page leaves the other as it was.
pub proof fn lemma_page_edit_reads_back(before: Pages, after: Pages, source: Seq<char>)
    ensures
        index_edited(before, after, source) ==> after.index_page.content@ == source
            && after.index_page.html_content@ == crate::markup::markdown_html(source)
            && after.aboutme_page == before.aboutme_page,
        aboutme_edited(before, after, source) ==> after.aboutme_page.content@ == source
            && after.aboutme_page.html_content@ == crate::markup::markdown_html(source)
            && after.index_page == before.index_page,
{
}

/// One edit of a run: `step.0` tells the page (true for the index page, false
/// for the "about me" page) and `step.1` is the Markdown written to it.
pub open spec fn page_edit_step(before: Pages, after: Pages, step: (bool, Seq<char>)) -> bool {
    if step.0 {
        index_edited(before, after, step.1)
    } else {
        aboutme_edited(before, after, step.1)
    }
}

/// `states` are the pages before and after each edit of `steps`, in order.
pub open spec fn page_edit_run(states: Seq<Pages>, steps: Seq<(bool, Seq<char>)>) -> bool {
    &&& states.len() == steps.len() + 1
    &&& forall|i: int| 0 <= i < steps.len() ==> #[trigger] page_edit_step(states[i], states[i + 1], steps[i])
}

/// The Markdown of the last edit of `steps` to the index page (`index`) or to
/// the "about me" page (`!index`), if there is one.
pub open spec fn last_edit(steps: Seq<(bool, Seq<char>)>, index: bool) -> Option<Seq<char>>
    decreases steps.len(),
{
    if steps.len() == 0 {
        None
    } else if steps.last().0 == index {
        Some(steps.last().1)
    } else {
        last_edit(steps.drop_last(), index)
    }
}

/// Law: after any run of page edits, each page shows the rendering of the last
/// Markdown written to it, or is as it was if it was never edited.
pub proof fn lemma_page_edit_run(states: Seq<Pages>, steps: Seq<(bool, Seq<char>)>)
    requires
        page_edit_run(states, steps),
    ensures
        match last_edit(steps, true) {
            Some(src) => states.last().index_page.renders(src),
            None => states.last().index_page == states[0].index_page,
        },
        match last_edit(steps, false) {
            Some(src) => states.last().aboutme_page.renders(src),
            None => states.last().aboutme_page == states[0].aboutme_page,
        },
    decreases steps.len(),
{
    if steps.len() > 0 {
        let n = steps.len() - 1;
        let prev_states = states.drop_last();
        let prev_steps = steps.drop_last();
        assert forall|i: int| 0 <= i < prev_steps.len() implies #[trigger] page_edit_step(
            prev_states[i],
            prev_states[i + 1],
            prev_steps[i],
        ) by {
            assert(page_edit_step(states[i], states[i + 1], steps[i]));
        }
        lemma_page_edit_run(prev_states, prev_steps);
        assert(page_edit_step(states[n], states[n + 1], steps[n]));
        assert(states.last() == states[n + 1]);
        assert(prev_states.last() == states[n]);
    }
}

/// The blog's editable strings: its name, the author's name, the login of the
/// master user and the link to the favicon.
pub struct DynVal {
    pub blog_name: String,
    pub your_name: String,
    pub master_user_login: String,
    pub favicon: String,
}

impl DynVal {
    /// Takes the four strings in the order blog name, author name, master login, favicon.
    pub fn new(vs: Vec<String>) -> (d: Self)
        requires
            vs.len() >= 4,
        ensures
            d.blog_name@ == vs[0]@,
            d.your_name@ == vs[1]@,
            d.master_user_login@ == vs[2]@,
            d.favicon@ == vs[3]@,
    {
        DynVal {
            blog_name: vs[0].clone(),
            your_name: vs[1].clone(),
            master_user_login: vs[2].clone(),
            favicon: vs[3].clone(),
        }
    }
}

} // verus!
