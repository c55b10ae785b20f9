//! Small pure helpers shared by the HTTP/SQL layers around the mount
//! manager: pagination arithmetic, identifier validation, and the
//! column/value pairs of the create and update operations.

use vstd::prelude::*;
use vstd::string::*;
use crate::text::{chars_vec, char_is_alphanumeric, is_alphanumeric_char};

verus! {

/// The page selection a listing request carries; either field may be absent.
pub struct PaginationParams {
    pub page: Option<i32>,
    pub per_page: Option<i32>,
}

/// The page actually delivered, with the total row and page counts.
pub struct Pagination {
    pub current_page: i32,
    pub per_page: i32,
    pub total: i32,
    pub total_pages: i32,
}

/// The requested page, defaulting to the first.
pub open spec fn spec_page(params: PaginationParams) -> int {
    match params.page {
        Some(p) => p as int,
        None => 1,
    }
}

/// The requested page size, defaulting to ten rows.
pub open spec fn spec_per_page(params: PaginationParams) -> int {
    match params.per_page {
        Some(p) => p as int,
        None => 10,
    }
}

/// How many rows to skip before the requested page.  Any page number is
/// admitted, as the request layer passes them through unchecked; a page
/// below one simply yields a non-positive offset.
pub fn query_offset(params: &PaginationParams) -> (r: i32)
    requires
        i32::MIN < spec_page(*params),
        i32::MIN <= (spec_page(*params) - 1) * spec_per_page(*params) <= i32::MAX,
    ensures
        r == (spec_page(*params) - 1) * spec_per_page(*params),
{
    let page = match params.page {
        Some(p) => p,
        None => 1,
    };
    let per_page = match params.per_page {
        Some(p) => p,
        None => 10,
    };
    (page - 1) * per_page
}

/// The pagination record for a listing of `total` rows: the requested page
/// and size with their defaults filled in, and the page count rounded up.
/// Any page number is admitted and recorded as it came; the page size must
/// be positive, as the page count is divided by it.
pub fn paginate(params: &PaginationParams, total: i32) -> (r: Pagination)
    requires
        spec_per_page(*params) >= 1,
        total >= 0,
        total + spec_per_page(*params) - 1 <= i32::MAX,
    ensures
        r.current_page == spec_page(*params),
        r.per_page == spec_per_page(*params),
        r.total == total,
        r.total_pages == (total + spec_per_page(*params) - 1) / spec_per_page(*params),
        r.total_pages * r.per_page >= total,
{
    let page = match params.page {
        Some(p) => p,
        None => 1,
    };
    let per_page = match params.per_page {
        Some(p) => p,
        None => 10,
    };
    let total_pages = (total - 1 + per_page) / per_page;
    proof {
        let p = per_page as int;
        let d = total - 1 + p;
        vstd::arithmetic::div_mod::lemma_fundamental_div_mod(d, p);
        vstd::arithmetic::div_mod::lemma_mod_bound(d, p);
        assert(p * (d / p) == d - d % p);
        assert(p * (d / p) >= total);
        assert(total_pages == d / p);
        assert((d / p) * p == p * (d / p)) by (nonlinear_arith);
    }
    Pagination { current_page: page, per_page, total, total_pages }
}

/// A valid SQL identifier as the table layer accepts it: non-empty, every
/// character a letter, a digit or an underscore.
pub open spec fn spec_is_valid_identifier(s: Seq<char>) -> bool {
    s.len() > 0 && forall|i: int|
        0 <= i < s.len() ==> is_alphanumeric_char(#[trigger] s[i]) || s[i] == '_'
}

/// Whether `s` is safe to interpolate as a table or column name.
pub fn is_valid_identifier(s: &str) -> (r: bool)
    ensures
        r == spec_is_valid_identifier(s@),
{
    let cs = chars_vec(s);
    let n = cs.len();
    if n == 0 {
        return false;
    }
    let mut i: usize = 0;
    while i < n
        invariant
            n == cs@.len(),
            cs@ == s@,
            i <= n,
            forall|k: int|
                0 <= k < i ==> is_alphanumeric_char(#[trigger] cs@[k]) || cs@[k] == '_',
        decreases n - i,
    {
        let c = cs[i];
        if !char_is_alphanumeric(c) && c != '_' {
            return false;
        }
        i = i + 1;
    }
    true
}

/// The views of a sequence of column/value pairs.
pub open spec fn pair_views(pairs: Seq<(String, String)>) -> Seq<(Seq<char>, Seq<char>)> {
    pairs.map_values(|p: (String, String)| (p.0@, p.1@))
}

/// The text a boolean is stored as.
pub open spec fn spec_bool_string(b: bool) -> Seq<char> {
    if b {
        "true"@
    } else {
        "false"@
    }
}

/// The text a boolean is stored as.
pub fn bool_string(b: bool) -> (r: String)
    ensures
        r@ == spec_bool_string(b),
{
    if b {
        String::from_str("true")
    } else {
        String::from_str("false")
    }
}

/// A request to create a todo entry.
pub struct CreateTodo {
    pub title: String,
}

/// A partial update of a todo entry; absent fields are left unchanged.
pub struct UpdateTodo {
    pub title: Option<String>,
    pub completed: Option<bool>,
}

/// A request to create a task entry.
pub struct CreateTask {
    pub name: String,
    pub description: String,
}

/// A partial update of a task entry; absent fields are left unchanged.
pub struct UpdateTask {
    pub name: Option<String>,
    pub description: Option<String>,
    pub status: Option<String>,
}

/// The column/value pairs an update-todo request sets, in column order.
pub open spec fn spec_todo_update_fields(data: UpdateTodo) -> Seq<(Seq<char>, Seq<char>)> {
    let base = Seq::<(Seq<char>, Seq<char>)>::empty();
    let with_title = match data.title {
        Some(t) => base.push(("title"@, t@)),
        None => base,
    };
    match data.completed {
        Some(b) => with_title.push(("completed"@, spec_bool_string(b))),
        None => with_title,
    }
}

impl UpdateTodo {
    /// The column/value pairs this update sets; empty when nothing is set,
    /// in which case no update statement is issued.
    pub fn update_fields(&self) -> (r: Vec<(String, String)>)
        ensures
            pair_views(r@) == spec_todo_update_fields(*self),
    {
        let mut r: Vec<(String, String)> = Vec::new();
        if let Some(t) = &self.title {
            r.push((String::from_str("title"), t.clone()));
        }
        if let Some(b) = self.completed {
            r.push((String::from_str("completed"), bool_string(b)));
        }
        proof {
            assert(pair_views(r@) =~= spec_todo_update_fields(*self));
        }
        r
    }
}

/// The column/value pairs a new todo entry is filled with: its title, and
/// not yet completed.
pub open spec fn spec_todo_create_fields(data: CreateTodo) -> Seq<(Seq<char>, Seq<char>)> {
    seq![("title"@, data.title@), ("completed"@, spec_bool_string(false))]
}

impl CreateTodo {
    /// The column/value pairs a freshly created todo entry is filled with.
    pub fn initial_fields(&self) -> (r: Vec<(String, String)>)
        ensures
            pair_views(r@) == spec_todo_create_fields(*self),
    {
        let mut r: Vec<(String, String)> = Vec::new();
        r.push((String::from_str("title"), self.title.clone()));
        r.push((String::from_str("completed"), bool_string(false)));
        proof {
            assert(pair_views(r@) =~= spec_todo_create_fields(*self));
        }
        r
    }
}

/// The column/value pairs an update-task request sets, in column order.
pub open spec fn spec_task_update_fields(data: UpdateTask) -> Seq<(Seq<char>, Seq<char>)> {
    let base = Seq::<(Seq<char>, Seq<char>)>::empty();
    let with_name = match data.name {
        Some(n) => base.push(("name"@, n@)),
        None => base,
    };
    let with_description = match data.description {
        Some(d) => with_name.push(("description"@, d@)),
        None => with_name,
    };
    match data.status {
        Some(s) => with_description.push(("status"@, s@)),
        None => with_description,
    }
}

impl UpdateTask {
    /// The column/value pairs this update sets; empty when nothing is set,
    /// in which case no update statement is issued.
    pub fn update_fields(&self) -> (r: Vec<(String, String)>)
        ensures
            pair_views(r@) == spec_task_update_fields(*self),
    {
        let mut r: Vec<(String, String)> = Vec::new();
        if let Some(n) = &self.name {
            r.push((String::from_str("name"), n.clone()));
        }
        if let Some(d) = &self.description {
            r.push((String::from_str("description"), d.clone()));
        }
        if let Some(s) = &self.status {
            r.push((String::from_str("status"), s.clone()));
        }
        proof {
            assert(pair_views(r@) =~= spec_task_update_fields(*self));
        }
        r
    }
}

/// The column/value pairs a new task entry is filled with: its name and
/// description, with a pending status.
pub open spec fn spec_task_create_fields(data: CreateTask) -> Seq<(Seq<char>, Seq<char>)> {
    seq![("name"@, data.name@), ("description"@, data.description@), ("status"@, "pending"@)]
}

impl CreateTask {
    /// The column/value pairs a freshly created task entry is filled with.
    pub fn initial_fields(&self) -> (r: Vec<(String, String)>)
        ensures
            pair_views(r@) == spec_task_create_fields(*self),
    {
        let mut r: Vec<(String, String)> = Vec::new();
        r.push((String::from_str("name"), self.name.clone()));
        r.push((String::from_str("description"), self.description.clone()));
        r.push((String::from_str("status"), String::from_str("pending")));
        proof {
            assert(pair_views(r@) =~= spec_task_create_fields(*self));
        }
        r
    }
}

} // verus!
