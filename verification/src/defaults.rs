//! The rows that a fresh store is seeded with, and the settings that hold
//! where none was stored.

use vstd::prelude::*;

verus! {

/// The key under which the theme is stored.
pub const THEME_KEY: &'static str = "theme";

/// The key under which the custom background is stored.
pub const BACKGROUND_KEY: &'static str = "custom_background";

/// The theme of a fresh store.
pub const DEFAULT_THEME: &'static str = "light";

/// The background where none was stored.
pub const DEFAULT_BACKGROUND: &'static str = "#ffffff";

/// How many sample students a fresh store gets.
pub const SAMPLE_COUNT: usize = 5;

/// How many connections the pool of a storage engine may hold.
pub const MAX_CONNECTIONS: u32 = 10;

/// The name and class of the sample student `i`, counted from 0.
pub open spec fn sample(i: int) -> (Seq<char>, Seq<char>) {
    if i == 0 {
        ("张三"@, "一年级1班"@)
    } else if i == 1 {
        ("李四"@, "一年级1班"@)
    } else if i == 2 {
        ("王五"@, "一年级2班"@)
    } else if i == 3 {
        ("赵六"@, "一年级2班"@)
    } else {
        ("孙七"@, "一年级3班"@)
    }
}

/// The name and class of the sample student `i`, counted from 0.
pub fn sample_student(i: usize) -> (pair: (&'static str, &'static str))
    requires
        i < SAMPLE_COUNT,
    ensures
        (pair.0@, pair.1@) == sample(i as int),
        pair.0@.len() > 0,
        pair.1@.len() > 0,
{
    proof {
        reveal_strlit("张三");
        reveal_strlit("李四");
        reveal_strlit("王五");
        reveal_strlit("赵六");
        reveal_strlit("孙七");
        reveal_strlit("一年级1班");
        reveal_strlit("一年级2班");
        reveal_strlit("一年级3班");
    }
    if i == 0 {
        ("张三", "一年级1班")
    } else if i == 1 {
        ("李四", "一年级1班")
    } else if i == 2 {
        ("王五", "一年级2班")
    } else if i == 3 {
        ("赵六", "一年级2班")
    } else {
        ("孙七", "一年级3班")
    }
}

} // verus!
