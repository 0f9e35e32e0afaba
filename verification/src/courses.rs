use vstd::prelude::*;

verus! {

/// Handler of the courses gRPC API.
pub struct MyCoursesGrpc {}

impl MyCoursesGrpc {
    /// The courses that a `ListCourses` call answers with: none are served
    /// yet, so the list is empty.
    pub fn list_courses<C>(&self) -> (courses: Vec<C>)
        ensures
            courses@ == Seq::<C>::empty(),
    {
        Vec::new()
    }
}

} // verus!
