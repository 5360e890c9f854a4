//! The pages of the front end: which template each one renders, what it
//! hands to the template, and what is answered once rendering has ended.

use crate::error::{MyError, MyErrorView};
use crate::models::teacher::{CreateTeacher, CreateTeacherView, TeacherView};
use crate::store::outcome;
use vstd::prelude::*;

verus! {

/// A teacher as the service returns it to the front end.
#[derive(Debug, Clone, PartialEq, Eq)]
pub struct TeacherResponse {
    pub id: i32,
    pub name: String,
    pub picture_url: String,
    pub profile: String,
}

impl View for TeacherResponse {
    type V = TeacherView;

    open spec fn view(&self) -> TeacherView {
        TeacherView {
            id: self.id,
            name: self.name@,
            picture_url: self.picture_url@,
            profile: self.profile@,
        }
    }
}

impl DeepView for TeacherResponse {
    type V = TeacherView;

    open spec fn deep_view(&self) -> TeacherView {
        self@
    }
}

/// What a visitor submits to register as a teacher.
#[derive(Debug, Clone, PartialEq, Eq)]
pub struct TeacherRegisterForm {
    pub name: String,
    pub imageurl: String,
    pub profile: String,
}

/// The mathematical form of [`TeacherRegisterForm`].
pub struct TeacherRegisterFormView {
    pub name: Seq<char>,
    pub imageurl: Seq<char>,
    pub profile: Seq<char>,
}

impl View for TeacherRegisterForm {
    type V = TeacherRegisterFormView;

    open spec fn view(&self) -> TeacherRegisterFormView {
        TeacherRegisterFormView {
            name: self.name@,
            imageurl: self.imageurl@,
            profile: self.profile@,
        }
    }
}

/// A value that a page hands to its template.
#[derive(Debug, Clone, PartialEq, Eq)]
pub enum ContextValue {
    Text(String),
    Teachers(Vec<TeacherResponse>),
}

/// The mathematical form of [`ContextValue`].
pub enum ContextValueView {
    Text(Seq<char>),
    Teachers(Seq<TeacherView>),
}

impl View for ContextValue {
    type V = ContextValueView;

    open spec fn view(&self) -> ContextValueView {
        match self {
            ContextValue::Text(text) => ContextValueView::Text(text@),
            ContextValue::Teachers(teachers) => ContextValueView::Teachers(teachers.deep_view()),
        }
    }
}

impl DeepView for ContextValue {
    type V = ContextValueView;

    open spec fn deep_view(&self) -> ContextValueView {
        self@
    }
}

/// A page before it is rendered: the template's name and the values that
/// the template gets, each under its key, in the order of insertion.
#[derive(Debug, Clone, PartialEq, Eq)]
pub struct Page {
    pub template: String,
    pub context: Vec<(String, ContextValue)>,
}

/// The mathematical form of [`Page`].
pub struct PageView {
    pub template: Seq<char>,
    pub context: Seq<(Seq<char>, ContextValueView)>,
}

impl View for Page {
    type V = PageView;

    open spec fn view(&self) -> PageView {
        PageView { template: self.template@, context: self.context.deep_view() }
    }
}

/// A rendered page as it is answered.
#[derive(Debug, Clone, PartialEq, Eq)]
pub struct HtmlResponse {
    pub status: u16,
    pub content_type: String,
    pub body: String,
}

/// The mathematical form of [`HtmlResponse`].
pub struct HtmlResponseView {
    pub status: u16,
    pub content_type: Seq<char>,
    pub body: Seq<char>,
}

impl View for HtmlResponse {
    type V = HtmlResponseView;

    open spec fn view(&self) -> HtmlResponseView {
        HtmlResponseView {
            status: self.status,
            content_type: self.content_type@,
            body: self.body@,
        }
    }
}

impl DeepView for HtmlResponse {
    type V = HtmlResponseView;

    open spec fn deep_view(&self) -> HtmlResponseView {
        self@
    }
}

/// What becomes of a submitted registration.
#[derive(Debug, Clone, PartialEq, Eq)]
pub enum Registration {
    /// The name is taken: the form is shown again, with what was entered.
    Conflict(Page),
    /// The registration goes to the service as a new teacher.
    Submit(CreateTeacher),
}

/// The mathematical form of [`Registration`].
pub enum RegistrationView {
    Conflict(PageView),
    Submit(CreateTeacherView),
}

impl View for Registration {
    type V = RegistrationView;

    open spec fn view(&self) -> RegistrationView {
        match self {
            Registration::Conflict(page) => RegistrationView::Conflict(page@),
            Registration::Submit(teacher) => RegistrationView::Submit(teacher@),
        }
    }
}

/// The page that lists the teachers which the service returned.
pub open spec fn teachers_page(teachers: Seq<TeacherView>) -> PageView {
    PageView {
        template: "teachers.html"@,
        context: seq![
            ("error"@, ContextValueView::Text(""@)),
            ("teacher"@, ContextValueView::Teachers(teachers)),
        ],
    }
}

/// The page that shows the empty registration form.
pub open spec fn register_page() -> PageView {
    PageView {
        template: "register.html"@,
        context: seq![
            ("error"@, ContextValueView::Text(""@)),
            ("current_name"@, ContextValueView::Text(""@)),
            ("current_imageurl"@, ContextValueView::Text(""@)),
            ("current_profile"@, ContextValueView::Text(""@)),
        ],
    }
}

/// The page that shows the registration form again after a conflict.
pub open spec fn conflict_page(form: TeacherRegisterFormView) -> PageView {
    PageView {
        template: "register.html"@,
        context: seq![
            ("error"@, ContextValueView::Text("Dave already exists!"@)),
            ("current_name"@, ContextValueView::Text(form.name)),
            ("current_imageurl"@, ContextValueView::Text(form.imageurl)),
            ("current_profile"@, ContextValueView::Text(form.profile)),
        ],
    }
}

/// What becomes of a registration: a conflict where the name is the one
/// that is taken, else a new teacher with the fields of the form.
pub open spec fn registered(form: TeacherRegisterFormView) -> RegistrationView {
    if form.name == "Dave"@ {
        RegistrationView::Conflict(conflict_page(form))
    } else {
        RegistrationView::Submit(
            CreateTeacherView {
                name: form.name,
                picture_url: form.imageurl,
                profile: form.profile,
            },
        )
    }
}

/// What is answered for a rendering: the text as an HTML page with status
/// 200, or `TeraError` where the template could not be rendered.
pub open spec fn page_answered(rendered: Result<Seq<char>, Seq<char>>) -> Result<
    HtmlResponseView,
    MyErrorView,
> {
    match rendered {
        Ok(body) => Ok(HtmlResponseView { status: 200, content_type: "text/html"@, body }),
        Err(_) => Err(MyErrorView::TeraError("Template error"@)),
    }
}

fn text_entry(key: &str, text: String) -> (entry: (String, ContextValue))
    ensures
        entry.deep_view() == (key@, ContextValueView::Text(text@)),
{
    (key.to_owned(), ContextValue::Text(text))
}

/// The page that lists the teachers which the service returned.
pub fn get_all_teachers(teachers: Vec<TeacherResponse>) -> (page: Page)
    ensures
        page@ == teachers_page(teachers.deep_view()),
{
    let mut context: Vec<(String, ContextValue)> = Vec::new();
    context.push(text_entry("error", "".to_owned()));
    context.push(("teacher".to_owned(), ContextValue::Teachers(teachers)));
    proof {
        assert(context.deep_view() =~= teachers_page(teachers.deep_view()).context);
    }
    Page { template: "teachers.html".to_owned(), context }
}

/// The page that shows the empty registration form.
pub fn show_register_from() -> (page: Page)
    ensures
        page@ == register_page(),
{
    let mut context: Vec<(String, ContextValue)> = Vec::new();
    context.push(text_entry("error", "".to_owned()));
    context.push(text_entry("current_name", "".to_owned()));
    context.push(text_entry("current_imageurl", "".to_owned()));
    context.push(text_entry("current_profile", "".to_owned()));
    proof {
        assert(context.deep_view() =~= register_page().context);
    }
    Page { template: "register.html".to_owned(), context }
}

/// Decides on a submitted registration: the name `Dave` is taken and gets
/// the form again with a message and with what was entered; any other
/// name goes to the service as a new teacher with the fields of the form.
pub fn handle_register(form: TeacherRegisterForm) -> (registration: Registration)
    ensures
        registration@ == registered(form@),
{
    let taken = "Dave".to_owned();
    if form.name == taken {
        let mut context: Vec<(String, ContextValue)> = Vec::new();
        context.push(text_entry("error", "Dave already exists!".to_owned()));
        context.push(text_entry("current_name", form.name));
        context.push(text_entry("current_imageurl", form.imageurl));
        context.push(text_entry("current_profile", form.profile));
        proof {
            assert(context.deep_view() =~= conflict_page(form@).context);
        }
        Registration::Conflict(Page { template: "register.html".to_owned(), context })
    } else {
        Registration::Submit(
            CreateTeacher { name: form.name, picture_url: form.imageurl, profile: form.profile },
        )
    }
}

/// The page that follows a registration which the service accepted: the
/// list of teachers, holding the one that was created.
pub fn registered_page(created: TeacherResponse) -> (page: Page)
    ensures
        page@ == teachers_page(seq![created@]),
{
    let mut teachers: Vec<TeacherResponse> = Vec::new();
    teachers.push(created);
    proof {
        assert(teachers.deep_view() =~= seq![created@]);
    }
    get_all_teachers(teachers)
}

/// Answers a rendering: the text as an HTML page with status 200, or
/// `TeraError` where the template could not be rendered.
pub fn page_response(rendered: Result<String, String>) -> (response: Result<
    HtmlResponse,
    MyError,
>)
    ensures
        outcome(response) == page_answered(outcome(rendered)),
{
    match rendered {
        Ok(body) => Ok(HtmlResponse { status: 200, content_type: "text/html".to_owned(), body }),
        Err(_) => Err(MyError::TeraError("Template error".to_owned())),
    }
}

} // verus!
