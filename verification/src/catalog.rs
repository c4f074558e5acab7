//! The catalog of semantic-commit categories offered by the selection
//! menu. Each label is rendered as a glyph, a short emoji-convention
//! code, and a description; only the leading glyph of the chosen label
//! survives into the commit message.

use vstd::prelude::*;

verus! {

/// The number of labels in the catalog.
pub open spec fn catalog_len() -> int {
    66
}

/// Returns the labels of the selection menu, in the order they are
/// presented.
pub fn emoji_options() -> (v: Vec<&'static str>)
    ensures
        v@.len() == catalog_len(),
        forall|i: int| 0 <= i < v@.len() ==> #[trigger] v@[i]@.len() > 0,
{
    proof {
        reveal_strlit("🎨 :art: Improve structure/format");
        reveal_strlit("⚡  :zap: Improve performance");
        reveal_strlit("🔥 :fire: Remove code or files");
        reveal_strlit("🐛 :bug: Fix a bug");
        reveal_strlit("🚑️ :ambulance: Critical hotfix");
        reveal_strlit("✨ :sparkles: Introduce new features");
        reveal_strlit("📝 :memo: Add or update documentation");
        reveal_strlit("🚀 :rocket: Deploy or release something");
        reveal_strlit("💄 :lipstick: Add or update UI/style files");
        reveal_strlit("🎉 :tada: Initial commit");
        reveal_strlit("✅ :white_check_mark: Add, update, or pass tests");
        reveal_strlit("🔒 :lock: Fix or improve security issues");
        reveal_strlit("🔐 :closed_lock_with_key: Add or update secrets");
        reveal_strlit("🔖 :bookmark: Release or version tags");
        reveal_strlit("🚨 :rotating_light: Fix compiler/linter warnings");
        reveal_strlit("🚧 :construction: Work in progress");
        reveal_strlit("💚 :green_heart: Fix CI build");
        reveal_strlit("⬇️ :arrow_down: Downgrade dependencies");
        reveal_strlit("⬆️ :arrow_up: Upgrade dependencies");
        reveal_strlit("📌 :pushpin: Pin dependencies to specific versions");
        reveal_strlit("👷 :construction_worker: Add or update CI/CD build system");
        reveal_strlit("📈 :chart_with_upwards_trend: Add or update analytics/tracking code");
        reveal_strlit("♻️ :recycle: Refactor code");
        reveal_strlit("➕ :heavy_plus_sign: Add a dependency");
        reveal_strlit("➖ :heavy_minus_sign: Remove a dependency");
        reveal_strlit("🔧 :wrench: Add or update configuration files");
        reveal_strlit("🔨 :hammer: Add or update build scripts");
        reveal_strlit("🌐 :globe_with_meridians: Internationalization or localization");
        reveal_strlit("✏️ :pencil2: Fix typos");
        reveal_strlit("💩 :poop: Write bad code that needs improvement");
        reveal_strlit("⏪ :rewind: Revert changes");
        reveal_strlit("🔀 :twisted_rightwards_arrows: Merge branches");
        reveal_strlit("📦 :package: Add or update compiled files or dependencies");
        reveal_strlit("👽 :alien: Update code due to external API changes");
        reveal_strlit("🚚 :truck: Move or rename files");
        reveal_strlit("📄 :page_facing_up: Add or update license");
        reveal_strlit("💥 :boom: Introduce breaking changes");
        reveal_strlit("🍱 :bento: Add or update assets");
        reveal_strlit("♿ :wheelchair: Improve accessibility");
        reveal_strlit("💡 :bulb: Add or update comments in source code");
        reveal_strlit("🍻 :beers: Celebrate or add fun Easter eggs");
        reveal_strlit("💬 :speech_balloon: Add or update text and messages");
        reveal_strlit("🗃️ :card_file_box: Perform database-related changes");
        reveal_strlit("🔊 :loud_sound: Add or update logs");
        reveal_strlit("🔇 :mute: Remove logs");
        reveal_strlit("👥 :busts_in_silhouette: Add or update contributor(s)");
        reveal_strlit("🚸 :children_crossing: Improve UX or UI accessibility");
        reveal_strlit("🏗️ :building_construction: Make architectural changes");
        reveal_strlit("📱 :iphone: Work on responsive design or mobile support");
        reveal_strlit("🤡 :clown_face: Mock related changes");
        reveal_strlit("🥚 :egg: Add or update Easter eggs");
        reveal_strlit("🙈 :see_no_evil: Add or update .gitignore file");
        reveal_strlit("🧠 :brain: Add or update logic or algorithms");
        reveal_strlit("🧰 :toolbox: Add or update tooling/utilities");
        reveal_strlit("🧪 :test_tube: Add or update tests");
        reveal_strlit("🧱 :bricks: Infrastructure changes");
        reveal_strlit("🩹 :adhesive_bandage: Simple fix not critical");
        reveal_strlit("🩺 :stethoscope: Add or update health checks");
        reveal_strlit("🧩 :jigsaw: Add or update modular code/components");
        reveal_strlit("🧹 :broom: Remove useless files or code");
        reveal_strlit("🧵 :thread: Add or update multithreading/concurrency");
        reveal_strlit("🕹️ :joystick: Add or update scripts/tooling");
        reveal_strlit("🧑‍💻 :technologist: Improve developer experience");
        reveal_strlit("🗑️ :wastebasket: Deprecate or remove obsolete code");
        reveal_strlit("🏁 :checkered_flag: Finish a feature or milestone");
        reveal_strlit("🪄 :magic_wand: Minor visual or UX enhancements");
    }
    let mut v: Vec<&'static str> = Vec::new();
    v.push("🎨 :art: Improve structure/format");
    v.push("⚡  :zap: Improve performance");
    v.push("🔥 :fire: Remove code or files");
    v.push("🐛 :bug: Fix a bug");
    v.push("🚑️ :ambulance: Critical hotfix");
    v.push("✨ :sparkles: Introduce new features");
    v.push("📝 :memo: Add or update documentation");
    v.push("🚀 :rocket: Deploy or release something");
    v.push("💄 :lipstick: Add or update UI/style files");
    v.push("🎉 :tada: Initial commit");
    v.push("✅ :white_check_mark: Add, update, or pass tests");
    v.push("🔒 :lock: Fix or improve security issues");
    v.push("🔐 :closed_lock_with_key: Add or update secrets");
    v.push("🔖 :bookmark: Release or version tags");
    v.push("🚨 :rotating_light: Fix compiler/linter warnings");
    v.push("🚧 :construction: Work in progress");
    v.push("💚 :green_heart: Fix CI build");
    v.push("⬇️ :arrow_down: Downgrade dependencies");
    v.push("⬆️ :arrow_up: Upgrade dependencies");
    v.push("📌 :pushpin: Pin dependencies to specific versions");
    v.push("👷 :construction_worker: Add or update CI/CD build system");
    v.push("📈 :chart_with_upwards_trend: Add or update analytics/tracking code");
    v.push("♻️ :recycle: Refactor code");
    v.push("➕ :heavy_plus_sign: Add a dependency");
    v.push("➖ :heavy_minus_sign: Remove a dependency");
    v.push("🔧 :wrench: Add or update configuration files");
    v.push("🔨 :hammer: Add or update build scripts");
    v.push("🌐 :globe_with_meridians: Internationalization or localization");
    v.push("✏️ :pencil2: Fix typos");
    v.push("💩 :poop: Write bad code that needs improvement");
    v.push("⏪ :rewind: Revert changes");
    v.push("🔀 :twisted_rightwards_arrows: Merge branches");
    v.push("📦 :package: Add or update compiled files or dependencies");
    v.push("👽 :alien: Update code due to external API changes");
    v.push("🚚 :truck: Move or rename files");
    v.push("📄 :page_facing_up: Add or update license");
    v.push("💥 :boom: Introduce breaking changes");
    v.push("🍱 :bento: Add or update assets");
    v.push("♿ :wheelchair: Improve accessibility");
    v.push("💡 :bulb: Add or update comments in source code");
    v.push("🍻 :beers: Celebrate or add fun Easter eggs");
    v.push("💬 :speech_balloon: Add or update text and messages");
    v.push("🗃️ :card_file_box: Perform database-related changes");
    v.push("🔊 :loud_sound: Add or update logs");
    v.push("🔇 :mute: Remove logs");
    v.push("👥 :busts_in_silhouette: Add or update contributor(s)");
    v.push("🚸 :children_crossing: Improve UX or UI accessibility");
    v.push("🏗️ :building_construction: Make architectural changes");
    v.push("📱 :iphone: Work on responsive design or mobile support");
    v.push("🤡 :clown_face: Mock related changes");
    v.push("🥚 :egg: Add or update Easter eggs");
    v.push("🙈 :see_no_evil: Add or update .gitignore file");
    v.push("🧠 :brain: Add or update logic or algorithms");
    v.push("🧰 :toolbox: Add or update tooling/utilities");
    v.push("🧪 :test_tube: Add or update tests");
    v.push("🧱 :bricks: Infrastructure changes");
    v.push("🩹 :adhesive_bandage: Simple fix not critical");
    v.push("🩺 :stethoscope: Add or update health checks");
    v.push("🧩 :jigsaw: Add or update modular code/components");
    v.push("🧹 :broom: Remove useless files or code");
    v.push("🧵 :thread: Add or update multithreading/concurrency");
    v.push("🕹️ :joystick: Add or update scripts/tooling");
    v.push("🧑‍💻 :technologist: Improve developer experience");
    v.push("🗑️ :wastebasket: Deprecate or remove obsolete code");
    v.push("🏁 :checkered_flag: Finish a feature or milestone");
    v.push("🪄 :magic_wand: Minor visual or UX enhancements");
    assert(forall|i: int| 0 <= i < v@.len() ==> #[trigger] v@[i]@.len() > 0);
    v
}

} // verus!
