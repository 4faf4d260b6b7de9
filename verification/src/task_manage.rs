//! The task registry: at most one stored handle per purpose; storing a
//! new handle silently replaces the previous one (supersession, not
//! cancellation).

use vstd::prelude::*;

verus! {

/// Holds the handle of the one in-flight weather fetch, if any.
pub struct TaskManage<T> {
    pub weather_fetch: Option<T>,
}

impl<T> Default for TaskManage<T> {
    /// A registry with no stored handle.
    fn default() -> (r: Self)
        ensures
            r.weather_fetch is None,
    {
        TaskManage { weather_fetch: None }
    }
}

impl<T> TaskManage<T> {
    /// Stores the handle of a newly issued weather fetch; a previously
    /// stored handle is dropped, never cancelled.
    pub fn store_weather_fetch(&mut self, task: T)
        ensures
            final(self).weather_fetch == Some(task),
    {
        self.weather_fetch = Some(task);
    }
}

} // verus!
