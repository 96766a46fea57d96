use vstd::prelude::*;

verus! {

/// The application's name setting.
#[derive(Debug)]
pub struct Config {
    pub app_name: String,
}

impl Config {
    /// The configuration that the `APP_NAME` variable gives (`None` when it
    /// is unset): its text, or "MyApp".
    pub fn load_from_env(app_name: Option<String>) -> (c: Self)
        ensures
            c.app_name@ == match app_name {
                Some(s) => s@,
                None => "MyApp"@,
            },
    {
        let app_name = match app_name {
            Some(s) => s,
            None => "MyApp".to_owned(),
        };
        Config { app_name }
    }
}

} // verus!
