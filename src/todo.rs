use vstd::prelude::*;

verus! {

/// A persisted todo item. `id` is assigned by the store and never changes.
#[derive(Debug, Clone)]
pub struct Todo {
    pub id: i32,
    pub title: String,
    pub completed: bool,
}

/// The mathematical value of a todo.
pub struct TodoView {
    pub id: int,
    pub title: Seq<char>,
    pub completed: bool,
}

impl View for Todo {
    type V = TodoView;

    open spec fn view(&self) -> TodoView {
        TodoView { id: self.id as int, title: self.title@, completed: self.completed }
    }
}

impl Todo {
    /// A copy of this todo, field for field.
    pub fn duplicate(&self) -> (r: Todo)
        ensures
            r@ == self@,
    {
        Todo { id: self.id, title: self.title.clone(), completed: self.completed }
    }
}

/// The input of a create operation: a title and, optionally, the initial
/// completion flag (absent means not completed).
#[derive(Debug, Clone)]
pub struct CreateTodo {
    pub title: String,
    pub completed: Option<bool>,
}

impl CreateTodo {
    /// The completion flag a todo created from this input starts with.
    pub open spec fn initial_completed(&self) -> bool {
        match self.completed {
            Some(c) => c,
            None => false,
        }
    }

    /// Builds a create request from the fields a request body carried.
    /// A body without a title is rejected here, before any store is involved.
    pub fn from_fields(title: Option<String>, completed: Option<bool>) -> (r: Result<
        CreateTodo,
        RequestError,
    >)
        ensures
            title is None <==> r == Err::<CreateTodo, RequestError>(RequestError::MissingTitle),
            title is Some ==> (r matches Ok(c) && c.title@ == title->0@ && c.completed
                == completed),
    {
        match title {
            Some(t) => Ok(CreateTodo { title: t, completed }),
            None => Err(RequestError::MissingTitle),
        }
    }

    /// Whether a todo holds what this input asked for.
    pub open spec fn is_realized_by(&self, t: TodoView) -> bool {
        t.title == self.title@ && t.completed == self.initial_completed()
    }
}

/// Why a request body was refused before reaching the repository.
#[derive(Debug, Clone, Copy, PartialEq, Eq, Structural)]
pub enum RequestError {
    MissingTitle,
}

} // verus!
