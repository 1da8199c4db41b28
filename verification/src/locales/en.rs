//! English strings.

use vstd::prelude::*;

use super::keys;
use crate::text::str_eq;

verus! {

/// The English text for `key`.
/// Keys without an entry are returned unchanged.
pub open spec fn text(key: Seq<char>) -> Seq<char> {
    if key == keys::TRAY_NEW_FENCE@ {
        "New Fence"@
    } else if key == keys::TRAY_RELOAD@ {
        "Reload All"@
    } else if key == keys::TRAY_ANIM_FPS@ {
        "Animation FPS"@
    } else if key == keys::TRAY_DEFAULT_SETTINGS@ {
        "Default fence settings"@
    } else if key == keys::TRAY_AUTOSTART@ {
        "Start with Windows"@
    } else if key == keys::TRAY_EXIT@ {
        "Exit"@
    } else if key == keys::TRAY_DEFAULT_BLUR_PROMPT@ {
        "Default blur radius (0-150)"@
    } else if key == keys::FENCE_OPEN@ {
        "Open"@
    } else if key == keys::FENCE_OPEN_LOCATION@ {
        "Open file location"@
    } else if key == keys::FENCE_REMOVE@ {
        "Remove from fence"@
    } else if key == keys::FENCE_ROLL_UP@ {
        "Roll up"@
    } else if key == keys::FENCE_UNROLL@ {
        "Unroll"@
    } else if key == keys::FENCE_RENAME@ {
        "Rename..."@
    } else if key == keys::FENCE_LOCK@ {
        "Lock"@
    } else if key == keys::FENCE_UNLOCK@ {
        "Unlock"@
    } else if key == keys::FENCE_CUSTOMIZE@ {
        "Customize"@
    } else if key == keys::FENCE_DELETE@ {
        "Delete fence"@
    } else if key == keys::FENCE_BLUR_PROMPT@ {
        "Blur radius (0-150)"@
    } else if key == keys::FENCE_RENAME_PROMPT@ {
        "Rename fence"@
    } else if key == keys::FPS_OFF@ {
        "Off (snap)"@
    } else if key == keys::FPS_DEFAULT@ {
        "60 FPS (default)"@
    } else if key == keys::CUSTOMIZE_BG_COLOR@ {
        "Background color"@
    } else if key == keys::CUSTOMIZE_BORDER_COLOR@ {
        "Border color"@
    } else if key == keys::CUSTOMIZE_TITLE_COLOR@ {
        "Title color"@
    } else if key == keys::CUSTOMIZE_LABEL_COLOR@ {
        "Label color"@
    } else if key == keys::CUSTOMIZE_BORDER_THICK@ {
        "Border thickness"@
    } else if key == keys::CUSTOMIZE_ICON_SIZE@ {
        "Icon size"@
    } else if key == keys::CUSTOMIZE_ICON_SPACING@ {
        "Icon spacing"@
    } else if key == keys::CUSTOMIZE_BOLD_TITLE@ {
        "Bold title"@
    } else if key == keys::CUSTOMIZE_SHOW_LABELS@ {
        "Show item labels"@
    } else if key == keys::CUSTOMIZE_BG_BLUR@ {
        "Background blur"@
    } else if key == keys::CUSTOMIZE_BLUR_RADIUS@ {
        "Blur radius..."@
    } else if key == keys::CUSTOMIZE_BG_OPACITY@ {
        "Background opacity"@
    } else if key == keys::CUSTOMIZE_TITLE_ALIGN@ {
        "Title alignment"@
    } else if key == keys::ALIGN_LEFT@ {
        "Left"@
    } else if key == keys::ALIGN_CENTER@ {
        "Center"@
    } else if key == keys::ALIGN_RIGHT@ {
        "Right"@
    } else if key == keys::COLOR_DEFAULT@ {
        "(default)"@
    } else if key == keys::COLOR_RED@ {
        "Red"@
    } else if key == keys::COLOR_GREEN@ {
        "Green"@
    } else if key == keys::COLOR_BLUE@ {
        "Blue"@
    } else if key == keys::COLOR_TEAL@ {
        "Teal"@
    } else if key == keys::COLOR_PURPLE@ {
        "Purple"@
    } else if key == keys::COLOR_ORANGE@ {
        "Orange"@
    } else if key == keys::COLOR_PINK@ {
        "Pink"@
    } else if key == keys::COLOR_YELLOW@ {
        "Yellow"@
    } else if key == keys::COLOR_GRAY@ {
        "Gray"@
    } else if key == keys::COLOR_BLACK@ {
        "Black"@
    } else if key == keys::COLOR_WHITE@ {
        "White"@
    } else if key == keys::SIZE_TINY@ {
        "Tiny (16)"@
    } else if key == keys::SIZE_SMALL@ {
        "Small (24)"@
    } else if key == keys::SIZE_MEDIUM@ {
        "Medium (32)"@
    } else if key == keys::SIZE_LARGE@ {
        "Large (48)"@
    } else if key == keys::SIZE_HUGE@ {
        "Huge (64)"@
    } else if key == keys::OPACITY_TRANSPARENT@ {
        "0% (transparent)"@
    } else if key == keys::OPACITY_DEFAULT@ {
        "45% (default)"@
    } else if key == keys::OPACITY_SOLID@ {
        "100% (solid)"@
    } else if key == keys::MODAL_OK@ {
        "OK"@
    } else if key == keys::MODAL_CANCEL@ {
        "Cancel"@
    } else if key == keys::DELETE_TITLE@ {
        "Delete this fence?"@
    } else if key == keys::DELETE_TITLE_NAMED@ {
        "Delete the fence \u{201c}{}\u{201d}?"@
    } else if key == keys::DELETE_DETAILS@ {
        "Its contents are shortcuts only \u{2014} the original files stay where they are. This cannot be undone from inside the app."@
    } else if key == keys::DELETE_CONFIRM@ {
        "Delete fence"@
    } else if key == keys::NEW_FENCE_TITLE@ {
        "New Fence - Drop your shortcuts here"@
    } else if key == keys::LANG_LABEL@ {
        "Language"@
    } else if key == keys::LANG_EN@ {
        "English"@
    } else if key == keys::LANG_ZH_CN@ {
        "简体中文"@
    } else if key == keys::LANG_ZH_TW@ {
        "繁體中文"@
    } else if key == keys::DROP_DESC_OPEN_WITH@ {
        "Open with %1"@
    } else if key == keys::DROP_DESC_ADD_TO@ {
        "Add to %1"@
    } else {
        key
    }
}

/// Looks `key` up in the English table.
#[verifier::rlimit(50)]
pub fn translate(key: &'static str) -> (r: &'static str)
    ensures
        r@ == text(key@),
{
    if str_eq(key, keys::TRAY_NEW_FENCE) {
        return "New Fence";
    }
    if str_eq(key, keys::TRAY_RELOAD) {
        return "Reload All";
    }
    if str_eq(key, keys::TRAY_ANIM_FPS) {
        return "Animation FPS";
    }
    if str_eq(key, keys::TRAY_DEFAULT_SETTINGS) {
        return "Default fence settings";
    }
    if str_eq(key, keys::TRAY_AUTOSTART) {
        return "Start with Windows";
    }
    if str_eq(key, keys::TRAY_EXIT) {
        return "Exit";
    }
    if str_eq(key, keys::TRAY_DEFAULT_BLUR_PROMPT) {
        return "Default blur radius (0-150)";
    }
    if str_eq(key, keys::FENCE_OPEN) {
        return "Open";
    }
    if str_eq(key, keys::FENCE_OPEN_LOCATION) {
        return "Open file location";
    }
    if str_eq(key, keys::FENCE_REMOVE) {
        return "Remove from fence";
    }
    if str_eq(key, keys::FENCE_ROLL_UP) {
        return "Roll up";
    }
    if str_eq(key, keys::FENCE_UNROLL) {
        return "Unroll";
    }
    if str_eq(key, keys::FENCE_RENAME) {
        return "Rename...";
    }
    if str_eq(key, keys::FENCE_LOCK) {
        return "Lock";
    }
    if str_eq(key, keys::FENCE_UNLOCK) {
        return "Unlock";
    }
    if str_eq(key, keys::FENCE_CUSTOMIZE) {
        return "Customize";
    }
    if str_eq(key, keys::FENCE_DELETE) {
        return "Delete fence";
    }
    if str_eq(key, keys::FENCE_BLUR_PROMPT) {
        return "Blur radius (0-150)";
    }
    if str_eq(key, keys::FENCE_RENAME_PROMPT) {
        return "Rename fence";
    }
    if str_eq(key, keys::FPS_OFF) {
        return "Off (snap)";
    }
    if str_eq(key, keys::FPS_DEFAULT) {
        return "60 FPS (default)";
    }
    if str_eq(key, keys::CUSTOMIZE_BG_COLOR) {
        return "Background color";
    }
    if str_eq(key, keys::CUSTOMIZE_BORDER_COLOR) {
        return "Border color";
    }
    if str_eq(key, keys::CUSTOMIZE_TITLE_COLOR) {
        return "Title color";
    }
    if str_eq(key, keys::CUSTOMIZE_LABEL_COLOR) {
        return "Label color";
    }
    if str_eq(key, keys::CUSTOMIZE_BORDER_THICK) {
        return "Border thickness";
    }
    if str_eq(key, keys::CUSTOMIZE_ICON_SIZE) {
        return "Icon size";
    }
    if str_eq(key, keys::CUSTOMIZE_ICON_SPACING) {
        return "Icon spacing";
    }
    if str_eq(key, keys::CUSTOMIZE_BOLD_TITLE) {
        return "Bold title";
    }
    if str_eq(key, keys::CUSTOMIZE_SHOW_LABELS) {
        return "Show item labels";
    }
    if str_eq(key, keys::CUSTOMIZE_BG_BLUR) {
        return "Background blur";
    }
    if str_eq(key, keys::CUSTOMIZE_BLUR_RADIUS) {
        return "Blur radius...";
    }
    if str_eq(key, keys::CUSTOMIZE_BG_OPACITY) {
        return "Background opacity";
    }
    if str_eq(key, keys::CUSTOMIZE_TITLE_ALIGN) {
        return "Title alignment";
    }
    if str_eq(key, keys::ALIGN_LEFT) {
        return "Left";
    }
    if str_eq(key, keys::ALIGN_CENTER) {
        return "Center";
    }
    if str_eq(key, keys::ALIGN_RIGHT) {
        return "Right";
    }
    if str_eq(key, keys::COLOR_DEFAULT) {
        return "(default)";
    }
    if str_eq(key, keys::COLOR_RED) {
        return "Red";
    }
    if str_eq(key, keys::COLOR_GREEN) {
        return "Green";
    }
    if str_eq(key, keys::COLOR_BLUE) {
        return "Blue";
    }
    if str_eq(key, keys::COLOR_TEAL) {
        return "Teal";
    }
    if str_eq(key, keys::COLOR_PURPLE) {
        return "Purple";
    }
    if str_eq(key, keys::COLOR_ORANGE) {
        return "Orange";
    }
    if str_eq(key, keys::COLOR_PINK) {
        return "Pink";
    }
    if str_eq(key, keys::COLOR_YELLOW) {
        return "Yellow";
    }
    if str_eq(key, keys::COLOR_GRAY) {
        return "Gray";
    }
    if str_eq(key, keys::COLOR_BLACK) {
        return "Black";
    }
    if str_eq(key, keys::COLOR_WHITE) {
        return "White";
    }
    if str_eq(key, keys::SIZE_TINY) {
        return "Tiny (16)";
    }
    if str_eq(key, keys::SIZE_SMALL) {
        return "Small (24)";
    }
    if str_eq(key, keys::SIZE_MEDIUM) {
        return "Medium (32)";
    }
    if str_eq(key, keys::SIZE_LARGE) {
        return "Large (48)";
    }
    if str_eq(key, keys::SIZE_HUGE) {
        return "Huge (64)";
    }
    if str_eq(key, keys::OPACITY_TRANSPARENT) {
        return "0% (transparent)";
    }
    if str_eq(key, keys::OPACITY_DEFAULT) {
        return "45% (default)";
    }
    if str_eq(key, keys::OPACITY_SOLID) {
        return "100% (solid)";
    }
    if str_eq(key, keys::MODAL_OK) {
        return "OK";
    }
    if str_eq(key, keys::MODAL_CANCEL) {
        return "Cancel";
    }
    if str_eq(key, keys::DELETE_TITLE) {
        return "Delete this fence?";
    }
    if str_eq(key, keys::DELETE_TITLE_NAMED) {
        return "Delete the fence \u{201c}{}\u{201d}?";
    }
    if str_eq(key, keys::DELETE_DETAILS) {
        return "Its contents are shortcuts only \u{2014} the original files stay where they are. This cannot be undone from inside the app.";
    }
    if str_eq(key, keys::DELETE_CONFIRM) {
        return "Delete fence";
    }
    if str_eq(key, keys::NEW_FENCE_TITLE) {
        return "New Fence - Drop your shortcuts here";
    }
    if str_eq(key, keys::LANG_LABEL) {
        return "Language";
    }
    if str_eq(key, keys::LANG_EN) {
        return "English";
    }
    if str_eq(key, keys::LANG_ZH_CN) {
        return "简体中文";
    }
    if str_eq(key, keys::LANG_ZH_TW) {
        return "繁體中文";
    }
    if str_eq(key, keys::DROP_DESC_OPEN_WITH) {
        return "Open with %1";
    }
    if str_eq(key, keys::DROP_DESC_ADD_TO) {
        return "Add to %1";
    }
    key
}

} // verus!
