//! Scenes: placed instances, a camera, a clear colour and callbacks.

use vstd::prelude::*;
use crate::camera::Camera;
use crate::command::{Command, Uniform};
use crate::error::Error;
use crate::listener::Listener;
use crate::object::{Object, ObjectManager, ObjectTypeView};
use crate::words::{QuaternionWords, Vec3, Vec4, ZERO};

verus! {

/// An ordered collection of placed instances with one camera, a clear colour
/// and the callbacks that watch it. The order in which instances were added
/// is the order in which they are drawn.
#[derive(Debug)]
pub struct Scene<E, U> {
    objects: Vec<Object>,
    camera: Camera,
    listener: Listener<E, U>,
    clear_color: Vec4,
    clear_color_dirty: bool,
}

/// What a [`Scene`] holds, with its instances as a plain sequence.
pub struct SceneView<E, U> {
    pub objects: Seq<Object>,
    pub camera: Camera,
    pub listener: Listener<E, U>,
    pub clear_color: Vec4,
    /// Whether the clear colour was set since it was last handed to the
    /// driver.
    pub clear_color_dirty: bool,
}

impl<E, U> View for Scene<E, U> {
    type V = SceneView<E, U>;

    closed spec fn view(&self) -> SceneView<E, U> {
        SceneView {
            objects: self.objects@,
            camera: self.camera,
            listener: self.listener,
            clear_color: self.clear_color,
            clear_color_dirty: self.clear_color_dirty,
        }
    }
}

/// The commands that draw one instance of a mesh type: bind its vertex
/// array, set position, scale, rotation and colour, and draw all of its
/// triangles at once.
pub open spec fn draw_commands(object: Object, ty: ObjectTypeView) -> Seq<Command> {
    seq![
        Command::BindVertexArray { array: ty.info.vao.0 },
        Command::UniformVec3 { uniform: Uniform::ObjPosition, value: object.position },
        Command::UniformVec3 { uniform: Uniform::ObjScale, value: object.scale },
        Command::UniformRotation { uniform: Uniform::ObjRotation, quaternion: object.orientation },
        Command::UniformVec4 { uniform: Uniform::Color, value: object.color },
        Command::DrawElements { count: ty.index_count() as i32 },
    ]
}

/// Whether the instance names a registered mesh type.
pub open spec fn drawable(object: Object, registry: Seq<ObjectTypeView>) -> bool {
    object.object_type < registry.len()
}

/// The commands for one instance: those that draw it, or none where its
/// mesh type is not in the registry.
pub open spec fn instance_commands(object: Object, registry: Seq<ObjectTypeView>) -> Seq<Command> {
    if drawable(object, registry) {
        draw_commands(object, registry[object.object_type as int])
    } else {
        Seq::empty()
    }
}

/// The commands for a list of instances: those of each instance, in the
/// order of the list.
pub open spec fn render_commands(objects: Seq<Object>, registry: Seq<ObjectTypeView>) -> Seq<
    Command,
>
    decreases objects.len(),
{
    if objects.len() == 0 {
        Seq::empty()
    } else {
        render_commands(objects.drop_last(), registry) + instance_commands(objects.last(), registry)
    }
}

impl<E, U> SceneView<E, U> {
    /// The commands that apply the clear colour: one if it is dirty, none
    /// otherwise.
    pub open spec fn clear_color_commands(self) -> Seq<Command> {
        if self.clear_color_dirty {
            seq![Command::ClearColor { color: self.clear_color }]
        } else {
            Seq::empty()
        }
    }

    /// The scene with one more instance at the end.
    pub open spec fn placed(self, object: Object) -> Self {
        SceneView { objects: self.objects.push(object), ..self }
    }

    /// The scene with all these instances at the end, placed one after the
    /// other.
    pub open spec fn placed_all(self, objects: Seq<Object>) -> Self
        decreases objects.len(),
    {
        if objects.len() == 0 {
            self
        } else {
            self.placed_all(objects.drop_last()).placed(objects.last())
        }
    }

    /// The index that the next instance gets: the number of instances that
    /// are there.
    pub open spec fn next_index(self) -> nat {
        self.objects.len()
    }

    /// The scene once its clear colour has been handed to the driver.
    pub open spec fn cleaned(self) -> Self {
        SceneView { clear_color_dirty: false, ..self }
    }

    /// The scene with another clear colour, not yet handed to the driver.
    pub open spec fn with_clear_color(self, color: Vec4) -> Self {
        SceneView { clear_color: color, clear_color_dirty: true, ..self }
    }
}

impl<E, U> Scene<E, U> {
    /// An empty scene seen through the given camera: no instance, no
    /// callback, and a clear colour of four zeros that is not dirty.
    pub fn new(camera: Camera) -> (scene: Self)
        ensures
            scene@.objects == Seq::<Object>::empty(),
            scene@.camera == camera,
            scene@.listener.on_event is None,
            scene@.listener.on_update is None,
            scene@.clear_color == [ZERO, ZERO, ZERO, ZERO],
            !scene@.clear_color_dirty,
    {
        Scene {
            objects: Vec::new(),
            camera,
            listener: Listener::new(),
            clear_color: [ZERO, ZERO, ZERO, ZERO],
            clear_color_dirty: false,
        }
    }

    /// Places an instance of mesh type `id` at the end of the scene and
    /// returns its index: the number of instances that were there before.
    /// Whether `id` is registered is not looked at here, only when the scene
    /// is drawn.
    pub fn add_object(
        &mut self,
        id: usize,
        position: Vec3,
        scale: Vec3,
        rotation: QuaternionWords,
        color: Vec4,
    ) -> (index: usize)
        ensures
            index == old(self)@.next_index(),
            final(self)@ == old(self)@.placed(
                Object { object_type: id, position, orientation: rotation, scale, color },
            ),
    {
        let index = self.objects.len();
        self.objects.push(Object { object_type: id, position, orientation: rotation, scale, color });
        index
    }

    /// Sets the clear colour and marks it dirty, whether or not it differs
    /// from the one before.
    pub fn set_clear_color(&mut self, red: u32, green: u32, blue: u32, alpha: u32)
        ensures
            final(self)@ == old(self)@.with_clear_color([red, green, blue, alpha]),
    {
        self.clear_color = [red, green, blue, alpha];
        self.clear_color_dirty = true;
    }

    /// Hands out the command that applies the clear colour, if it is dirty,
    /// and marks it clean.
    pub fn apply_clear_color(&mut self) -> (commands: Vec<Command>)
        ensures
            commands@ == old(self)@.clear_color_commands(),
            final(self)@ == old(self)@.cleaned(),
    {
        let mut commands: Vec<Command> = Vec::new();
        if self.clear_color_dirty {
            commands.push(Command::ClearColor { color: self.clear_color });
            self.clear_color_dirty = false;
        }
        commands
    }

    /// The commands that draw one instance, or the error that its mesh type
    /// is not in the registry.
    pub fn draw(object: &Object, object_manager: &ObjectManager) -> (commands: Result<
        Vec<Command>,
        Error,
    >)
        ensures
            drawable(*object, object_manager@) ==> commands is Ok && commands->Ok_0@
                == draw_commands(*object, object_manager@[object.object_type as int]),
            !drawable(*object, object_manager@) ==> commands == Err::<Vec<Command>, Error>(
                Error::IndexOutOfRange,
            ),
    {
        let ty = match object_manager.from_id(object.object_type) {
            Ok(ty) => ty,
            Err(error) => {
                return Err(error);
            },
        };
        let mut commands: Vec<Command> = Vec::new();
        commands.push(ty.info().vao.bind());
        commands.push(Command::UniformVec3 { uniform: Uniform::ObjPosition, value: object.position });
        commands.push(Command::UniformVec3 { uniform: Uniform::ObjScale, value: object.scale });
        commands.push(
            Command::UniformRotation {
                uniform: Uniform::ObjRotation,
                quaternion: object.orientation,
            },
        );
        commands.push(Command::UniformVec4 { uniform: Uniform::Color, value: object.color });
        commands.push(Command::DrawElements { count: ty.index_count() });
        assert(commands@ =~= draw_commands(*object, object_manager@[object.object_type as int]));
        Ok(commands)
    }

    /// The commands that draw the scene: those of every instance in the
    /// order of insertion. An instance whose mesh type is not in the
    /// registry is passed over, and the rest is drawn all the same.
    pub fn render(&self, object_manager: &ObjectManager) -> (commands: Vec<Command>)
        ensures
            commands@ == render_commands(self@.objects, object_manager@),
    {
        let mut commands: Vec<Command> = Vec::new();
        let mut i: usize = 0;
        while i < self.objects.len()
            invariant
                i <= self.objects@.len(),
                commands@ == render_commands(self.objects@.take(i as int), object_manager@),
            decreases self.objects@.len() - i,
        {
            let object = &self.objects[i];
            proof {
                let next = self.objects@.take(i + 1);
                assert(next.drop_last() =~= self.objects@.take(i as int));
                assert(next.last() == *object);
            }
            match Self::draw(object, object_manager) {
                Ok(mut drawn) => {
                    commands.append(&mut drawn);
                },
                Err(_) => {},
            }
            i += 1;
        }
        assert(self.objects@.take(i as int) =~= self.objects@);
        commands
    }

    /// The instances of the scene, in the order of insertion.
    pub fn objects(&self) -> (objects: &[Object])
        ensures
            objects@ == self@.objects,
    {
        self.objects.as_slice()
    }

    /// The instance at `index`, or the error that the index is out of range.
    pub fn object(&self, index: usize) -> (object: Result<Object, Error>)
        ensures
            object == (if index < self@.objects.len() {
                Ok::<Object, Error>(self@.objects[index as int])
            } else {
                Err::<Object, Error>(Error::IndexOutOfRange)
            }),
    {
        if index >= self.objects.len() {
            return Err(Error::IndexOutOfRange);
        }
        Ok(self.objects[index])
    }

    /// Puts `object` in the place of the instance at `index`, as a callback
    /// does to move or to recolour an instance. Where the index is out of
    /// range, the scene stays as it is.
    pub fn set_object(&mut self, index: usize, object: Object) -> (done: Result<(), Error>)
        ensures
            index < old(self)@.objects.len() ==> done == Ok::<(), Error>(()) && final(self)@ == (
            SceneView { objects: old(self)@.objects.update(index as int, object), ..old(self)@ }),
            index >= old(self)@.objects.len() ==> done == Err::<(), Error>(Error::IndexOutOfRange)
                && final(self)@ == old(self)@,
    {
        if index >= self.objects.len() {
            return Err(Error::IndexOutOfRange);
        }
        self.objects.set(index, object);
        Ok(())
    }

    /// The camera of the scene.
    pub fn camera(&self) -> (camera: Camera)
        ensures
            camera == self@.camera,
    {
        self.camera
    }

    /// Replaces the camera of the scene.
    pub fn set_camera(&mut self, camera: Camera)
        ensures
            final(self)@ == (SceneView { camera, ..old(self)@ }),
    {
        self.camera = camera;
    }

    /// The callbacks of the scene.
    pub fn listener(&self) -> (listener: &Listener<E, U>)
        ensures
            *listener == self@.listener,
    {
        &self.listener
    }

    /// The callbacks of the scene, to attach or to replace one.
    pub fn listener_mut(&mut self) -> (listener: &mut Listener<E, U>)
        ensures
            *listener == old(self)@.listener,
            final(self)@ == (SceneView { listener: *final(listener), ..old(self)@ }),
    {
        &mut self.listener
    }

    /// The clear colour of the scene.
    pub fn clear_color(&self) -> (color: Vec4)
        ensures
            color == self@.clear_color,
    {
        self.clear_color
    }

    /// Whether the clear colour was set since it was last handed to the
    /// driver.
    pub fn clear_color_dirty(&self) -> (dirty: bool)
        ensures
            dirty == self@.clear_color_dirty,
    {
        self.clear_color_dirty
    }
}

} // verus!
