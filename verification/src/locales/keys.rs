//! Keys of the translated user-interface strings.

use vstd::prelude::*;

verus! {


// Tray menu
pub const TRAY_NEW_FENCE: &'static str = "tray.new_fence";
pub const TRAY_RELOAD: &'static str = "tray.reload";
pub const TRAY_ANIM_FPS: &'static str = "tray.anim_fps";
pub const TRAY_DEFAULT_SETTINGS: &'static str = "tray.default_settings";
pub const TRAY_AUTOSTART: &'static str = "tray.autostart";
pub const TRAY_EXIT: &'static str = "tray.exit";
pub const TRAY_DEFAULT_BLUR_PROMPT: &'static str = "tray.default_blur_prompt";

// Fence context menu
pub const FENCE_OPEN: &'static str = "fence.open";
pub const FENCE_OPEN_LOCATION: &'static str = "fence.open_location";
pub const FENCE_REMOVE: &'static str = "fence.remove";
pub const FENCE_ROLL_UP: &'static str = "fence.roll_up";
pub const FENCE_UNROLL: &'static str = "fence.unroll";
pub const FENCE_RENAME: &'static str = "fence.rename";
pub const FENCE_LOCK: &'static str = "fence.lock";
pub const FENCE_UNLOCK: &'static str = "fence.unlock";
pub const FENCE_CUSTOMIZE: &'static str = "fence.customize";
pub const FENCE_DELETE: &'static str = "fence.delete";
pub const FENCE_BLUR_PROMPT: &'static str = "fence.blur_prompt";
pub const FENCE_RENAME_PROMPT: &'static str = "fence.rename_prompt";

// FPS presets
pub const FPS_OFF: &'static str = "fps.off";
pub const FPS_DEFAULT: &'static str = "fps.default";

// Customize menu labels
pub const CUSTOMIZE_BG_COLOR: &'static str = "customize.bg_color";
pub const CUSTOMIZE_BORDER_COLOR: &'static str = "customize.border_color";
pub const CUSTOMIZE_TITLE_COLOR: &'static str = "customize.title_color";
pub const CUSTOMIZE_LABEL_COLOR: &'static str = "customize.label_color";
pub const CUSTOMIZE_BORDER_THICK: &'static str = "customize.border_thick";
pub const CUSTOMIZE_ICON_SIZE: &'static str = "customize.icon_size";
pub const CUSTOMIZE_ICON_SPACING: &'static str = "customize.icon_spacing";
pub const CUSTOMIZE_BOLD_TITLE: &'static str = "customize.bold_title";
pub const CUSTOMIZE_SHOW_LABELS: &'static str = "customize.show_labels";
pub const CUSTOMIZE_BG_BLUR: &'static str = "customize.bg_blur";
pub const CUSTOMIZE_BLUR_RADIUS: &'static str = "customize.blur_radius";
pub const CUSTOMIZE_BG_OPACITY: &'static str = "customize.bg_opacity";

// Color names
pub const COLOR_DEFAULT: &'static str = "color.default";
pub const COLOR_RED: &'static str = "color.red";
pub const COLOR_GREEN: &'static str = "color.green";
pub const COLOR_BLUE: &'static str = "color.blue";
pub const COLOR_TEAL: &'static str = "color.teal";
pub const COLOR_PURPLE: &'static str = "color.purple";
pub const COLOR_ORANGE: &'static str = "color.orange";
pub const COLOR_PINK: &'static str = "color.pink";
pub const COLOR_YELLOW: &'static str = "color.yellow";
pub const COLOR_GRAY: &'static str = "color.gray";
pub const COLOR_BLACK: &'static str = "color.black";
pub const COLOR_WHITE: &'static str = "color.white";

// Size names
pub const SIZE_TINY: &'static str = "size.tiny";
pub const SIZE_SMALL: &'static str = "size.small";
pub const SIZE_MEDIUM: &'static str = "size.medium";
pub const SIZE_LARGE: &'static str = "size.large";
pub const SIZE_HUGE: &'static str = "size.huge";

// Opacity labels
pub const OPACITY_TRANSPARENT: &'static str = "opacity.transparent";
pub const OPACITY_DEFAULT: &'static str = "opacity.default";
pub const OPACITY_SOLID: &'static str = "opacity.solid";

// Modal buttons
pub const MODAL_OK: &'static str = "modal.ok";
pub const MODAL_CANCEL: &'static str = "modal.cancel";

// Delete fence dialog
pub const DELETE_TITLE: &'static str = "delete.title";
pub const DELETE_TITLE_NAMED: &'static str = "delete.title_named";
pub const DELETE_DETAILS: &'static str = "delete.details";
pub const DELETE_CONFIRM: &'static str = "delete.confirm";

// New fence default title
pub const NEW_FENCE_TITLE: &'static str = "new_fence_title";

// Title alignment
pub const CUSTOMIZE_TITLE_ALIGN: &'static str = "customize.title_align";
pub const ALIGN_LEFT: &'static str = "align.left";
pub const ALIGN_CENTER: &'static str = "align.center";
pub const ALIGN_RIGHT: &'static str = "align.right";

// Language menu
pub const LANG_LABEL: &'static str = "lang.label";
pub const LANG_EN: &'static str = "lang.en";
pub const LANG_ZH_CN: &'static str = "lang.zh_cn";
pub const LANG_ZH_TW: &'static str = "lang.zh_tw";

// Shell drop-description templates. Shown next to the cursor while
// dragging files over a fence. `%1` is replaced by Shell with the
// `szInsert` field of the DROPDESCRIPTION struct (NOT a Rust format
// arg) — keep the literal "%1" intact.
pub const DROP_DESC_OPEN_WITH: &'static str = "drop.open_with";
pub const DROP_DESC_ADD_TO: &'static str = "drop.add_to";

// Note fences and text outline
pub const CUSTOMIZE_NOTE_ALIGN: &'static str = "customize.note_align";
pub const CUSTOMIZE_TEXT_OUTLINE: &'static str = "customize.text_outline";
pub const NOTE_EDIT: &'static str = "note.edit";
pub const NOTE_EDIT_PROMPT: &'static str = "note.edit_prompt";
pub const NOTE_EMPTY_HINT: &'static str = "note.empty_hint";
pub const NOTE_SWITCH_TO_TEXT: &'static str = "note.switch_to_text";
pub const NOTE_SWITCH_TO_TODO: &'static str = "note.switch_to_todo";
pub const NOTE_TODO_EDIT_HINT: &'static str = "note.todo_edit_hint";

} // verus!
